use crate::register_address::ConfigBitFlags;
use vstd::prelude::*;

verus! {

/// The default config and tuning words written by a fresh start of the
/// device: audio output on, mute off, bass boost, seek direction up, RDS on,
/// new demodulation method, power on; band 87-108 MHz with 100 kHz spacing.
#[derive(Debug, Clone, Copy)]
pub struct Config {
    pub config: u16,
    pub tuning: u16,
}

impl Default for Config {
    fn default() -> (r: Self)
        ensures
            r.config == ConfigBitFlags::DHIZ | ConfigBitFlags::DMUTE | ConfigBitFlags::BASS
                | ConfigBitFlags::SEEKUP | ConfigBitFlags::RDS | ConfigBitFlags::NEW
                | ConfigBitFlags::ENABLE,
            r.tuning == 0,
    {
        Config {
            config: ConfigBitFlags::DHIZ | ConfigBitFlags::DMUTE | ConfigBitFlags::BASS
                | ConfigBitFlags::SEEKUP | ConfigBitFlags::RDS | ConfigBitFlags::NEW
                | ConfigBitFlags::ENABLE,
            tuning: 0,
        }
    }
}

} // verus!
