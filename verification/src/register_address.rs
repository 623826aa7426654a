use crate::bitfield::field_wf;
use vstd::prelude::*;

verus! {

/// Register addresses of the tuner's logical registers.
pub struct Register;

impl Register {
    pub const RDA5807M_REG_CHIPID: u8 = 0x00;

    pub const RDA5807M_REG_CONFIG: u8 = 0x02;

    pub const RDA5807M_REG_TUNING: u8 = 0x03;

    pub const RDA5807M_REG_GPIO: u8 = 0x04;

    pub const RDA5807M_REG_VOLUME: u8 = 0x05;

    pub const RDA5807M_REG_I2S: u8 = 0x06;

    pub const RDA5807M_REG_BLEND: u8 = 0x07;

    pub const RDA5807M_REG_FREQ: u8 = 0x08;

    pub const RDA5807M_REG_STATUS: u8 = 0x0A;

    pub const RDA5807M_REG_RSSI: u8 = 0x0B;

    pub const RDA5807M_REG_RDSA: u8 = 0x0C;

    pub const RDA5807M_REG_RDSB: u8 = 0x0D;

    pub const RDA5807M_REG_RDSC: u8 = 0x0E;

    pub const RDA5807M_REG_RDSD: u8 = 0x0F;
}

/// Named bits of the config register.
pub struct ConfigBitFlags;

impl ConfigBitFlags {
    /// Audio output high impedance disable. 0: high impedance, 1: normal.
    pub const DHIZ: u16 = 1 << 15;

    /// Mute disable. 0: muted, 1: normal.
    pub const DMUTE: u16 = 1 << 14;

    /// Mono select. 0: stereo, 1: force mono.
    pub const MONO: u16 = 1 << 13;

    /// Bass boost. 0: disabled, 1: enabled.
    pub const BASS: u16 = 1 << 12;

    /// Clock calibration. 0: always on, 1: only while FM works.
    pub const RCLKNOCAL: u16 = 1 << 11;

    /// Clock direct-input mode. 0: normal, 1: direct input.
    pub const RCLKDIRECT: u16 = 1 << 10;

    /// Seek direction. 0: seek down, 1: seek up.
    pub const SEEKUP: u16 = 1 << 9;

    /// Seek enable. Set high to start a seek; the chip clears it and raises
    /// the seek/tune-complete status flag when the seek ends.
    pub const SEEK: u16 = 1 << 8;

    /// Seek wrap mode. 0: wrap to the other band edge, 1: stop at the edge.
    pub const SKMODE: u16 = 1 << 7;

    /// Crystal frequency selectors.
    pub const CLK_32768_KHZ: u16 = 0b0000_0000_0000_0000;

    pub const CLK_12_MHZ: u16 = 0b0000_0000_0001_0000;

    pub const CLK_24_MHZ: u16 = 0b0000_0000_0101_0000;

    pub const CLK_13_MHZ: u16 = 0b0000_0000_0010_0000;

    pub const CLK_26_MHZ: u16 = 0b0000_0000_0110_0000;

    pub const CLK_192_MHZ: u16 = 0b0000_0000_0011_0000;

    pub const CLK_384_MHZ: u16 = 0b0000_0000_0111_0000;

    /// RDS/RBDS enable. 0: disabled, 1: enabled.
    pub const RDS: u16 = 1 << 3;

    /// New demodulation method for improved sensitivity.
    pub const NEW: u16 = 1 << 2;

    /// Soft reset. 0: normal, 1: reset.
    pub const RESET: u16 = 1 << 1;

    /// Power-up enable.
    pub const ENABLE: u16 = 1;
}

/// Named bits of the tuning register.
pub struct TuningBitFlag;

impl TuningBitFlag {
    /// Channel select. The tuned frequency is the band's base frequency plus
    /// the channel spacing times this field.
    pub const CHAN_MASK: u16 = 0b1111_1111_1100_0000;

    pub const CHAN_SHIFT: u16 = 6;

    /// Tune enable. The tune operation starts when this bit goes high; the
    /// chip clears it when the operation completes.
    pub const TUNE: u16 = 1 << 4;

    /// Band selector.
    pub const BAND_MASK: u16 = 0b0000_0000_0000_1100;

    pub const BAND_SHIFT: u16 = 2;

    /// 87-108 MHz (US/Europe).
    pub const BAND_87_108_MHZ: u16 = 0b0000_0000_0000_0000;

    /// 76-91 MHz (Japan).
    pub const BAND_76_91_MHZ: u16 = 0b0000_0000_0000_0100;

    /// 76-108 MHz (world wide).
    pub const BAND_76_108_MHZ: u16 = 0b0000_0000_0000_1000;

    /// 65-76 MHz (East Europe) or 50-65 MHz.
    pub const BAND_65_76_MHZ: u16 = 0b0000_0000_0000_1100;

    /// Channel spacing selector.
    pub const SPACE_MASK: u16 = 0b0000_0000_0000_0011;

    pub const SPACE_100_KHZ: u16 = 0b0000_0000_0000_0000;

    pub const SPACE_200_KHZ: u16 = 0b0000_0000_0000_0001;

    pub const SPACE_50_KHZ: u16 = 0b0000_0000_0000_0010;

    pub const SPACE_25_KHZ: u16 = 0b0000_0000_0000_0011;
}

/// Named bits of the volume register.
pub struct VolumeBitFlag;

impl VolumeBitFlag {
    /// Interrupt mode. 0: 5 ms interrupt, 1: interrupt lasts until the RDS
    /// block A register is read.
    pub const INT_MODE: u16 = 1 << 15;

    /// Seek mode. 10 adds the RSSI seek mode.
    pub const SEEK_MODE_MASK: u16 = 0b0110_0000_0000_0000;

    pub const SEEK_MODE_SHIFT: u16 = 13;

    /// Reserved bit.
    pub const RSVD: u16 = 1 << 12;

    /// Seek signal-to-noise threshold.
    pub const SEEK_TH_MASK: u16 = 0b0000_1111_0000_0000;

    pub const SEEK_TH_SHIFT: u16 = 8;

    /// LNA input port selection. 00: none, 01: LNAN, 10: LNAP, 11: dual.
    pub const LNA_PORT_SEL_MASK: u16 = 0b0000_0000_1100_0000;

    pub const LNA_PORT_SEL_SHIFT: u16 = 6;

    /// LNA working current. 00: 1.8 mA, 01: 2.1 mA, 10: 2.5 mA, 11: 3.0 mA.
    pub const LNA_ICSEL_BIT_MASK: u16 = 0b0000_0000_0011_0000;

    pub const LNA_ICSEL_BIT_SHIFT: u16 = 4;

    /// DAC gain control (volume). 0000 is minimal, 1111 maximal.
    pub const VOLUME_MASK: u16 = 0b0000_0000_0000_1111;
}

/// Decoded view of the volume register.
#[derive(Debug, Default, PartialEq, Eq, Structural, Clone, Copy)]
pub struct VolumeRegister {
    pub int_mode: bool,
    pub seek_mode: u8,
    pub rsvd: bool,
    pub seek_th: u8,
    pub lna_port_sel: u8,
    pub lna_icsel: u8,
    pub volume: u8,
}

/// The decoded view of a raw volume-register word.
pub open spec fn volume_register_spec(data: u16) -> VolumeRegister {
    VolumeRegister {
        int_mode: data & VolumeBitFlag::INT_MODE != 0,
        seek_mode: ((data & VolumeBitFlag::SEEK_MODE_MASK) >> VolumeBitFlag::SEEK_MODE_SHIFT) as u8,
        rsvd: data & VolumeBitFlag::RSVD != 0,
        seek_th: ((data & VolumeBitFlag::SEEK_TH_MASK) >> VolumeBitFlag::SEEK_TH_SHIFT) as u8,
        lna_port_sel: ((data & VolumeBitFlag::LNA_PORT_SEL_MASK)
            >> VolumeBitFlag::LNA_PORT_SEL_SHIFT) as u8,
        lna_icsel: ((data & VolumeBitFlag::LNA_ICSEL_BIT_MASK)
            >> VolumeBitFlag::LNA_ICSEL_BIT_SHIFT) as u8,
        volume: (data & VolumeBitFlag::VOLUME_MASK) as u8,
    }
}

impl VolumeRegister {
    pub fn from_u16(data: u16) -> (r: Self)
        ensures
            r == volume_register_spec(data),
    {
        proof {
            assert((data & 0b0110_0000_0000_0000u16) >> 13u16 < 256 && (data
                & 0b0000_1111_0000_0000u16) >> 8u16 < 256 && (data & 0b0000_0000_1100_0000u16)
                >> 6u16 < 256 && (data & 0b0000_0000_0011_0000u16) >> 4u16 < 256 && (data
                & 0b0000_0000_0000_1111u16) < 256) by (bit_vector);
        }
        VolumeRegister {
            int_mode: data & VolumeBitFlag::INT_MODE != 0,
            seek_mode: ((data & VolumeBitFlag::SEEK_MODE_MASK)
                >> VolumeBitFlag::SEEK_MODE_SHIFT) as u8,
            rsvd: data & VolumeBitFlag::RSVD != 0,
            seek_th: ((data & VolumeBitFlag::SEEK_TH_MASK) >> VolumeBitFlag::SEEK_TH_SHIFT) as u8,
            lna_port_sel: ((data & VolumeBitFlag::LNA_PORT_SEL_MASK)
                >> VolumeBitFlag::LNA_PORT_SEL_SHIFT) as u8,
            lna_icsel: ((data & VolumeBitFlag::LNA_ICSEL_BIT_MASK)
                >> VolumeBitFlag::LNA_ICSEL_BIT_SHIFT) as u8,
            volume: (data & VolumeBitFlag::VOLUME_MASK) as u8,
        }
    }
}

/// Named bits of the status register.
pub struct StatusBitFlag;

impl StatusBitFlag {
    /// RDS group ready.
    pub const RDSR: u16 = 1 << 15;

    /// Seek/tune complete.
    pub const STC: u16 = 1 << 14;

    /// Seek failed: no channel above the seek threshold was found.
    pub const SF: u16 = 1 << 13;

    /// RDS decoder synchronized.
    pub const RDDS: u16 = 1 << 12;

    /// RDS block E found.
    pub const BLK_E: u16 = 1 << 11;

    /// Stereo indicator. 0: mono, 1: stereo.
    pub const ST: u16 = 1 << 10;

    /// The channel the chip is currently tuned to, updated by the hardware
    /// after each seek or tune.
    pub const READ_CHAN_MASK: u16 = 0b0000_0011_1111_1111;
}

/// Decoded view of the status register.
#[derive(Debug, Default, PartialEq, Eq, Structural, Clone, Copy)]
pub struct StatusRegister {
    pub rdsr: bool,
    pub stc: bool,
    pub sf: bool,
    pub rdss: bool,
    pub blk_e: bool,
    pub st: bool,
    pub readchan: u16,
}

/// The decoded view of a raw status-register word.
pub open spec fn status_register_spec(data: u16) -> StatusRegister {
    StatusRegister {
        rdsr: data & StatusBitFlag::RDSR != 0,
        stc: data & StatusBitFlag::STC != 0,
        sf: data & StatusBitFlag::SF != 0,
        rdss: data & StatusBitFlag::RDDS != 0,
        blk_e: data & StatusBitFlag::BLK_E != 0,
        st: data & StatusBitFlag::ST != 0,
        readchan: data & StatusBitFlag::READ_CHAN_MASK,
    }
}

impl StatusRegister {
    pub fn from_u16(data: u16) -> (r: Self)
        ensures
            r == status_register_spec(data),
    {
        StatusRegister {
            rdsr: data & StatusBitFlag::RDSR != 0,
            stc: data & StatusBitFlag::STC != 0,
            sf: data & StatusBitFlag::SF != 0,
            rdss: data & StatusBitFlag::RDDS != 0,
            blk_e: data & StatusBitFlag::BLK_E != 0,
            st: data & StatusBitFlag::ST != 0,
            readchan: data & StatusBitFlag::READ_CHAN_MASK,
        }
    }
}

/// Named bits of the signal-strength register.
pub struct RssiBitFlag;

impl RssiBitFlag {
    pub const RSSI_MASK: u16 = 0b1111_1110_0000_0000;

    pub const RSSI_SHIFT: u16 = 9;
}

/// Every field descriptor of the register map is well formed: no mask has a
/// bit below its shift, so the codec's round-trip identity holds of each.
pub proof fn lemma_register_map_fields_wf()
    ensures
        field_wf(TuningBitFlag::CHAN_MASK, TuningBitFlag::CHAN_SHIFT),
        field_wf(TuningBitFlag::BAND_MASK, TuningBitFlag::BAND_SHIFT),
        field_wf(TuningBitFlag::SPACE_MASK, 0),
        field_wf(VolumeBitFlag::SEEK_MODE_MASK, VolumeBitFlag::SEEK_MODE_SHIFT),
        field_wf(VolumeBitFlag::SEEK_TH_MASK, VolumeBitFlag::SEEK_TH_SHIFT),
        field_wf(VolumeBitFlag::LNA_PORT_SEL_MASK, VolumeBitFlag::LNA_PORT_SEL_SHIFT),
        field_wf(VolumeBitFlag::LNA_ICSEL_BIT_MASK, VolumeBitFlag::LNA_ICSEL_BIT_SHIFT),
        field_wf(VolumeBitFlag::VOLUME_MASK, 0),
        field_wf(StatusBitFlag::READ_CHAN_MASK, 0),
        field_wf(RssiBitFlag::RSSI_MASK, RssiBitFlag::RSSI_SHIFT),
{
    assert(field_wf(TuningBitFlag::CHAN_MASK, TuningBitFlag::CHAN_SHIFT) && field_wf(
        TuningBitFlag::BAND_MASK,
        TuningBitFlag::BAND_SHIFT,
    ) && field_wf(TuningBitFlag::SPACE_MASK, 0) && field_wf(
        VolumeBitFlag::SEEK_MODE_MASK,
        VolumeBitFlag::SEEK_MODE_SHIFT,
    ) && field_wf(VolumeBitFlag::SEEK_TH_MASK, VolumeBitFlag::SEEK_TH_SHIFT) && field_wf(
        VolumeBitFlag::LNA_PORT_SEL_MASK,
        VolumeBitFlag::LNA_PORT_SEL_SHIFT,
    ) && field_wf(VolumeBitFlag::LNA_ICSEL_BIT_MASK, VolumeBitFlag::LNA_ICSEL_BIT_SHIFT)
        && field_wf(VolumeBitFlag::VOLUME_MASK, 0) && field_wf(StatusBitFlag::READ_CHAN_MASK, 0)
        && field_wf(RssiBitFlag::RSSI_MASK, RssiBitFlag::RSSI_SHIFT)) by (bit_vector);
}

} // verus!
