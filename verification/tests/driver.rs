use rda5807m::bus::{MockBus, MockError, MockTransaction};
use rda5807m::register_address::{Register, TuningBitFlag};
use rda5807m::{Address, Error, Rda5708m, DEVICE_BASE_RANDOM_ADDRESS};

fn new_dev(expectations: Vec<MockTransaction>) -> Rda5708m<MockBus> {
    Rda5708m::new(MockBus::new(expectations), Address::default())
}

fn finish(dev: Rda5708m<MockBus>) {
    let bus = dev.destroy();
    assert!(bus.is_done());
}

#[test]
fn can_stop() {
    let expectations = vec![MockTransaction::Write {
        addr: DEVICE_BASE_RANDOM_ADDRESS,
        data: vec![Register::RDA5807M_REG_CONFIG, 0x0, 0x0],
    }];
    let mut dev = new_dev(expectations);
    dev.stop().unwrap();
    finish(dev);
}

#[test]
fn can_read_rssi() {
    let expectations = vec![MockTransaction::WriteRead {
        addr: DEVICE_BASE_RANDOM_ADDRESS,
        data: vec![Register::RDA5807M_REG_RSSI],
        resp: vec![0xfe, 0x0],
    }];
    let mut dev = new_dev(expectations);
    let rssi = dev.get_rssi().unwrap();
    assert_eq!(rssi, 127);
    finish(dev);
}

#[test]
fn can_read_freq() {
    let chan: u16 = 0x13f;
    let tuning_bit: u16 = chan << TuningBitFlag::CHAN_SHIFT
        | TuningBitFlag::TUNE
        | TuningBitFlag::BAND_87_108_MHZ
        | TuningBitFlag::SPACE_100_KHZ;
    let expectations = vec![
        MockTransaction::WriteRead {
            addr: DEVICE_BASE_RANDOM_ADDRESS,
            data: vec![Register::RDA5807M_REG_TUNING],
            resp: vec![(tuning_bit >> 8) as u8, tuning_bit as u8],
        },
        MockTransaction::WriteRead {
            addr: DEVICE_BASE_RANDOM_ADDRESS,
            data: vec![Register::RDA5807M_REG_STATUS],
            resp: vec![(chan >> 8) as u8, chan as u8],
        },
    ];
    let mut dev = new_dev(expectations);
    let freq = dev.get_frequency().unwrap();
    assert_eq!(freq, 118_900);
    finish(dev);
}

#[test]
fn can_set_freq() {
    let tuning_bit: u16 = 0x13f << TuningBitFlag::CHAN_SHIFT
        | TuningBitFlag::TUNE
        | TuningBitFlag::BAND_87_108_MHZ
        | TuningBitFlag::SPACE_100_KHZ;
    let expectations = vec![
        MockTransaction::WriteRead {
            addr: DEVICE_BASE_RANDOM_ADDRESS,
            data: vec![Register::RDA5807M_REG_TUNING],
            resp: vec![(tuning_bit >> 8) as u8, tuning_bit as u8],
        },
        MockTransaction::Write {
            addr: DEVICE_BASE_RANDOM_ADDRESS,
            data: vec![
                Register::RDA5807M_REG_TUNING,
                (tuning_bit >> 8) as u8,
                tuning_bit as u8,
            ],
        },
    ];
    let mut dev = new_dev(expectations);
    dev.set_frequency(118_900).unwrap();
    finish(dev);
}

#[test]
fn set_frequency_preserves_band_and_spacing() {
    // Band 2 (76-108 MHz), 50 kHz spacing.
    let old_word: u16 = TuningBitFlag::BAND_76_108_MHZ | TuningBitFlag::SPACE_50_KHZ;
    // (96_000 - 76_000) / 50 = 400 = 0x190
    let new_word: u16 = 0x190 << TuningBitFlag::CHAN_SHIFT | TuningBitFlag::TUNE
        | TuningBitFlag::BAND_76_108_MHZ | TuningBitFlag::SPACE_50_KHZ;
    let expectations = vec![
        MockTransaction::WriteRead {
            addr: DEVICE_BASE_RANDOM_ADDRESS,
            data: vec![Register::RDA5807M_REG_TUNING],
            resp: vec![(old_word >> 8) as u8, old_word as u8],
        },
        MockTransaction::Write {
            addr: DEVICE_BASE_RANDOM_ADDRESS,
            data: vec![
                Register::RDA5807M_REG_TUNING,
                (new_word >> 8) as u8,
                new_word as u8,
            ],
        },
    ];
    let mut dev = new_dev(expectations);
    dev.set_frequency(96_000).unwrap();
    finish(dev);
}

#[test]
fn start_writes_config_then_tuning() {
    let expectations = vec![
        MockTransaction::Write {
            addr: DEVICE_BASE_RANDOM_ADDRESS,
            data: vec![Register::RDA5807M_REG_CONFIG, 0xd2, 0x0d],
        },
        MockTransaction::Write {
            addr: DEVICE_BASE_RANDOM_ADDRESS,
            data: vec![Register::RDA5807M_REG_TUNING, 0x00, 0x00],
        },
    ];
    let mut dev = new_dev(expectations);
    dev.start().unwrap();
    finish(dev);
}

#[test]
fn check_id_matches() {
    let expectations = vec![MockTransaction::WriteRead {
        addr: DEVICE_BASE_RANDOM_ADDRESS,
        data: vec![Register::RDA5807M_REG_CHIPID],
        resp: vec![0x58, 0x04],
    }];
    let mut dev = new_dev(expectations);
    assert!(dev.check_id().unwrap());
    finish(dev);
}

#[test]
fn check_id_mismatch_is_false_not_error() {
    let expectations = vec![MockTransaction::WriteRead {
        addr: DEVICE_BASE_RANDOM_ADDRESS,
        data: vec![Register::RDA5807M_REG_CHIPID],
        resp: vec![0x12, 0x34],
    }];
    let mut dev = new_dev(expectations);
    assert_eq!(dev.check_id().unwrap(), false);
    finish(dev);
}

fn volume_update_expectations(read_word: u16, written_word: u16) -> Vec<MockTransaction> {
    vec![
        MockTransaction::WriteRead {
            addr: DEVICE_BASE_RANDOM_ADDRESS,
            data: vec![Register::RDA5807M_REG_VOLUME],
            resp: vec![(read_word >> 8) as u8, read_word as u8],
        },
        MockTransaction::Write {
            addr: DEVICE_BASE_RANDOM_ADDRESS,
            data: vec![
                Register::RDA5807M_REG_VOLUME,
                (written_word >> 8) as u8,
                written_word as u8,
            ],
        },
    ]
}

#[test]
fn set_volume_writes_level() {
    let mut dev = new_dev(volume_update_expectations(0x9e80, 0x9e88));
    dev.set_volume(8).unwrap();
    finish(dev);
}

#[test]
fn set_volume_above_max_equals_set_volume_15() {
    let mut dev = new_dev(volume_update_expectations(0x9e80, 0x9e8f));
    dev.set_volume(20).unwrap();
    finish(dev);

    let mut dev = new_dev(volume_update_expectations(0x9e80, 0x9e8f));
    dev.set_volume(15).unwrap();
    finish(dev);
}

#[test]
fn volume_up_steps_by_one() {
    let mut dev = new_dev(volume_update_expectations(0x9e87, 0x9e88));
    dev.volume_up().unwrap();
    finish(dev);
}

#[test]
fn volume_up_saturates_at_max() {
    let mut dev = new_dev(volume_update_expectations(0x9e8f, 0x9e8f));
    dev.volume_up().unwrap();
    finish(dev);
}

#[test]
fn volume_down_steps_by_one() {
    let mut dev = new_dev(volume_update_expectations(0x9e88, 0x9e87));
    dev.volume_down().unwrap();
    finish(dev);
}

#[test]
fn volume_down_stays_at_zero() {
    let mut dev = new_dev(volume_update_expectations(0x9e80, 0x9e80));
    dev.volume_down().unwrap();
    finish(dev);
}

#[test]
fn get_volume_decodes_register() {
    let expectations = vec![MockTransaction::WriteRead {
        addr: DEVICE_BASE_RANDOM_ADDRESS,
        data: vec![Register::RDA5807M_REG_VOLUME],
        resp: vec![0xae, 0x69],
    }];
    let mut dev = new_dev(expectations);
    let vol = dev.get_volume().unwrap();
    assert!(vol.int_mode);
    assert_eq!(vol.seek_mode, 1);
    assert!(!vol.rsvd);
    assert_eq!(vol.seek_th, 14);
    assert_eq!(vol.lna_port_sel, 1);
    assert_eq!(vol.lna_icsel, 2);
    assert_eq!(vol.volume, 9);
    finish(dev);
}

#[test]
fn get_status_decodes_register() {
    let expectations = vec![MockTransaction::WriteRead {
        addr: DEVICE_BASE_RANDOM_ADDRESS,
        data: vec![Register::RDA5807M_REG_STATUS],
        resp: vec![0xad, 0x3f],
    }];
    let mut dev = new_dev(expectations);
    let status = dev.get_status().unwrap();
    assert!(status.rdsr);
    assert!(!status.stc);
    assert!(status.sf);
    assert!(!status.rdss);
    assert!(status.blk_e);
    assert!(status.st);
    assert_eq!(status.readchan, 0x13f);
    finish(dev);
}

fn config_update_expectations(read_word: u16, written_word: u16) -> Vec<MockTransaction> {
    vec![
        MockTransaction::WriteRead {
            addr: DEVICE_BASE_RANDOM_ADDRESS,
            data: vec![Register::RDA5807M_REG_CONFIG],
            resp: vec![(read_word >> 8) as u8, read_word as u8],
        },
        MockTransaction::Write {
            addr: DEVICE_BASE_RANDOM_ADDRESS,
            data: vec![
                Register::RDA5807M_REG_CONFIG,
                (written_word >> 8) as u8,
                written_word as u8,
            ],
        },
    ]
}

#[test]
fn mute_true_sets_mute_disable_bit() {
    // Setting the bit means "not muted": the hardware sense is inverted.
    let mut dev = new_dev(config_update_expectations(0x0000, 0x4000));
    dev.mute(true).unwrap();
    finish(dev);
}

#[test]
fn mute_false_clears_mute_disable_bit() {
    let mut dev = new_dev(config_update_expectations(0xffff, 0xbfff));
    dev.mute(false).unwrap();
    finish(dev);
}

#[test]
fn seek_up_with_wrap_clears_skmode() {
    // Mask SEEKUP|SEEK|SKMODE = 0x0380; writes SEEKUP|SEEK = 0x0300.
    let mut dev = new_dev(config_update_expectations(0xd20d, 0xd30d));
    dev.seek_up(true).unwrap();
    finish(dev);
}

#[test]
fn seek_up_without_wrap_sets_skmode() {
    let mut dev = new_dev(config_update_expectations(0xd20d, 0xd38d));
    dev.seek_up(false).unwrap();
    finish(dev);
}

#[test]
fn seek_down_clears_seekup_bit() {
    let mut dev = new_dev(config_update_expectations(0xd20d, 0xd10d));
    dev.seek_down(true).unwrap();
    finish(dev);
}

#[test]
fn seek_down_without_wrap_sets_skmode() {
    let mut dev = new_dev(config_update_expectations(0xd20d, 0xd18d));
    dev.seek_down(false).unwrap();
    finish(dev);
}

#[test]
fn set_seek_threshold_writes_field() {
    let mut dev = new_dev(volume_update_expectations(0x9e88, 0x9688));
    dev.set_seek_threshold(6).unwrap();
    finish(dev);
}

#[test]
fn bus_error_propagates() {
    // An exhausted script: the transport refuses, the driver hands the
    // error through unmodified.
    let mut dev = new_dev(vec![]);
    let r = dev.stop();
    assert!(matches!(r, Err(Error::I2C(MockError::Exhausted))));
}

#[test]
fn read_failure_aborts_before_write() {
    // The script holds a transaction of the wrong kind, so the read of a
    // read-modify-write fails; no write is attempted.
    let expectations = vec![MockTransaction::Write {
        addr: DEVICE_BASE_RANDOM_ADDRESS,
        data: vec![Register::RDA5807M_REG_VOLUME, 0x00, 0x08],
    }];
    let mut dev = new_dev(expectations);
    let r = dev.set_volume(8);
    assert!(matches!(r, Err(Error::I2C(MockError::Mismatch))));
    let bus = dev.destroy();
    assert!(!bus.is_done());
}

#[test]
fn addresses_share_one_value() {
    assert_eq!(Address::seq(), Address::default());
    assert_eq!(Address::from(0b10001), Address::default());
}
