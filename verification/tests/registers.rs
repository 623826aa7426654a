use rda5807m::bitfield::{extract, inject, merge};
use rda5807m::config::Config;
use rda5807m::register_address::{
    RssiBitFlag, StatusRegister, TuningBitFlag, VolumeBitFlag, VolumeRegister,
};
use rda5807m::tuning::{channel_to_frequency, frequency_to_channel};

#[test]
fn default_config() {
    assert_eq!(0b1101_0010_0000_1101, Config::default().config);
}

#[test]
fn default_config_tuning_word_is_zero() {
    assert_eq!(0, Config::default().tuning);
}

#[test]
fn extract_right_aligns_field() {
    assert_eq!(extract(0xfe00, RssiBitFlag::RSSI_MASK, RssiBitFlag::RSSI_SHIFT), 127);
    assert_eq!(extract(0x000c, TuningBitFlag::BAND_MASK, TuningBitFlag::BAND_SHIFT), 3);
    assert_eq!(extract(0xffff, VolumeBitFlag::VOLUME_MASK, 0), 15);
}

#[test]
fn inject_zero_clears_field() {
    assert_eq!(inject(0xffff, VolumeBitFlag::SEEK_TH_MASK, VolumeBitFlag::SEEK_TH_SHIFT, 0), 0xf0ff);
}

#[test]
fn inject_max_fills_field() {
    assert_eq!(inject(0x0000, VolumeBitFlag::SEEK_TH_MASK, VolumeBitFlag::SEEK_TH_SHIFT, 15), 0x0f00);
}

#[test]
fn inject_truncates_overflowing_value() {
    // 0x1f does not fit the four-bit field: the mask truncates it to 0xf.
    assert_eq!(inject(0x0000, VolumeBitFlag::VOLUME_MASK, 0, 0x1f), 0x000f);
    assert_eq!(inject(0xa5a5, VolumeBitFlag::VOLUME_MASK, 0, 0x1f), 0xa5af);
}

#[test]
fn inject_extract_round_trip() {
    let word: u16 = 0xa5c3;
    let restored = inject(
        word,
        TuningBitFlag::CHAN_MASK,
        TuningBitFlag::CHAN_SHIFT,
        extract(word, TuningBitFlag::CHAN_MASK, TuningBitFlag::CHAN_SHIFT),
    );
    assert_eq!(restored, word);
}

#[test]
fn merge_replaces_only_masked_bits() {
    assert_eq!(merge(0xa5a5, 0x0ff0, 0x0c30), 0xac35);
}

#[test]
fn channel_to_frequency_band0_100khz() {
    // 87_000 + 100 * 0x13f = 118_900
    assert_eq!(channel_to_frequency(0, 0, 0x13f), 118_900);
}

#[test]
fn channel_to_frequency_other_bands() {
    assert_eq!(channel_to_frequency(1, 1, 10), 78_000);
    assert_eq!(channel_to_frequency(2, 2, 100), 81_000);
    assert_eq!(channel_to_frequency(3, 3, 0), 65_000);
}

#[test]
fn frequency_to_channel_band0_100khz() {
    // (118_900 - 87_000) / 100 = 0x13f
    assert_eq!(frequency_to_channel(0, 0, 118_900), 0x13f);
}

#[test]
fn frequency_to_channel_floors_remainder() {
    assert_eq!(frequency_to_channel(0, 0, 118_949), 0x13f);
    assert_eq!(frequency_to_channel(3, 1, 65_399), 1);
}

#[test]
fn frequency_below_band_base_maps_to_channel_zero() {
    assert_eq!(frequency_to_channel(0, 0, 76_000), 0);
}

#[test]
fn inject_preserves_bits_outside_mask() {
    let value1: u16 = 0x5a5a;
    let value2: u16 = 0xffff;
    let r = inject(
        value1,
        VolumeBitFlag::SEEK_TH_MASK,
        VolumeBitFlag::SEEK_TH_SHIFT,
        extract(value2, VolumeBitFlag::SEEK_TH_MASK, VolumeBitFlag::SEEK_TH_SHIFT),
    );
    assert_eq!(r & !VolumeBitFlag::SEEK_TH_MASK, value1 & !VolumeBitFlag::SEEK_TH_MASK);
    assert_eq!(r, 0x5f5a);
}

#[test]
fn frequency_round_trip_is_exact_on_grid() {
    let chan = frequency_to_channel(0, 0, 118_900);
    assert_eq!(channel_to_frequency(0, 0, chan as u16), 118_900);
}

#[test]
fn frequency_round_trip_floors_off_grid() {
    let chan = frequency_to_channel(0, 0, 118_949);
    assert_eq!(channel_to_frequency(0, 0, chan as u16), 118_900);
}

#[test]
fn volume_register_decodes_all_fields() {
    let vol = VolumeRegister::from_u16(0b1010_1110_0110_1001);
    assert!(vol.int_mode);
    assert_eq!(vol.seek_mode, 1);
    assert!(!vol.rsvd);
    assert_eq!(vol.seek_th, 14);
    assert_eq!(vol.lna_port_sel, 1);
    assert_eq!(vol.lna_icsel, 2);
    assert_eq!(vol.volume, 9);
}

#[test]
fn volume_register_zero_word_decodes_to_defaults() {
    assert_eq!(VolumeRegister::from_u16(0), VolumeRegister::default());
}

#[test]
fn status_register_decodes_all_fields() {
    let status = StatusRegister::from_u16(0b1010_1101_0011_1111);
    assert!(status.rdsr);
    assert!(!status.stc);
    assert!(status.sf);
    assert!(!status.rdss);
    assert!(status.blk_e);
    assert!(status.st);
    assert_eq!(status.readchan, 0x13f);
}

#[test]
fn status_register_read_channel_is_ten_bits() {
    assert_eq!(StatusRegister::from_u16(0xffff).readchan, 0x3ff);
}
