//! Register-level driver for a single-chip FM radio tuner behind a two-wire
//! bus: a bitfield codec for the packed 16-bit registers, the
//! read-modify-write protocol over an exclusively owned transport, and the
//! conversion between frequencies and band-relative channels.

use vstd::prelude::*;

pub mod bitfield;
pub mod bus;
pub mod config;
pub mod register_address;
pub mod tuning;

use crate::bitfield::{extract_spec, merge_spec};
use crate::bus::{read_op, write_op, I2cBus};
use crate::register_address::{
    status_register_spec, volume_register_spec, ConfigBitFlags, Register, RssiBitFlag,
    StatusBitFlag, StatusRegister, TuningBitFlag, VolumeBitFlag, VolumeRegister,
};
use crate::tuning::{band_sel, channel_to_frequency_spec, frequency_to_channel_spec, space_sel};

verus! {

/// The one error a driver operation reports: the transport failed a bus
/// transaction. The transport's own error is carried unmodified.
#[derive(Debug)]
pub enum Error<E> {
    I2C(E),
}

/// Device address preset for sequential access mode.
pub const DEVICE_BASE_SEQ_ADDRESS: u8 = 0b10001;

/// Device address preset for random access mode.
pub const DEVICE_BASE_RANDOM_ADDRESS: u8 = 0b10001;

/// The value the chip-id register reads back on this chip family.
pub const DEVICE_ID: u16 = 0x5804;

/// A driver instance: one exclusively owned bus transport and the device
/// address it talks to. The driver caches no register state; every operation
/// is a direct register transaction.
#[derive(Debug)]
pub struct Rda5708m<I2C> {
    i2c: I2C,
    address: u8,
}

impl<I2C> Rda5708m<I2C> {
    /// The transport this driver owns.
    pub closed spec fn bus(self) -> I2C {
        self.i2c
    }

    /// The device address this driver talks to.
    pub closed spec fn addr(self) -> u8 {
        self.address
    }
}

/// The volume level a requested level clamps to: levels above 15 saturate
/// to 15.
pub open spec fn clamped_volume(level: u8) -> u16 {
    if level > 15 {
        15
    } else {
        level as u16
    }
}

/// The field value `volume_up` writes back, given the volume-register word
/// it read: one more than the current level, saturating at 15.
pub open spec fn volume_up_value(word: u16) -> u16 {
    if (word & VolumeBitFlag::VOLUME_MASK) >= 15 {
        15
    } else {
        ((word & VolumeBitFlag::VOLUME_MASK) + 1) as u16
    }
}

/// The field value `volume_down` writes back, given the volume-register word
/// it read: one less than the current level, stopping at 0.
pub open spec fn volume_down_value(word: u16) -> u16 {
    if (word & VolumeBitFlag::VOLUME_MASK) == 0 {
        0
    } else {
        ((word & VolumeBitFlag::VOLUME_MASK) - 1) as u16
    }
}

/// The bits `set_frequency` puts into the tuning register, given the word it
/// read there: the channel computed for `freq` under the word's own band and
/// spacing, truncated to the field's ten bits and shifted into position,
/// with the tune-start flag set.
pub open spec fn tuning_update_bits(word: u16, freq: u32) -> u16 {
    (((frequency_to_channel_spec(band_sel(word), space_sel(word), freq) % 1024) as u16)
        << TuningBitFlag::CHAN_SHIFT) | TuningBitFlag::TUNE
}

fn one_byte(a: u8) -> (r: Vec<u8>)
    ensures
        r@ == seq![a],
{
    let mut r: Vec<u8> = Vec::new();
    r.push(a);
    proof {
        assert(r@ =~= seq![a]);
    }
    r
}

fn three_bytes(a: u8, b: u8, c: u8) -> (r: Vec<u8>)
    ensures
        r@ == seq![a, b, c],
{
    let mut r: Vec<u8> = Vec::new();
    r.push(a);
    r.push(b);
    r.push(c);
    proof {
        assert(r@ =~= seq![a, b, c]);
    }
    r
}

impl<I2C: I2cBus> Rda5708m<I2C> {
    /// A driver owning the transport `i2c`, addressing the device at
    /// `address`.
    pub fn new(i2c: I2C, address: Address) -> (r: Self)
        ensures
            r.bus() == i2c,
            r.addr() == address.value(),
    {
        Rda5708m { i2c, address: address.0 }
    }

    /// Writes `data` to the register `register`: one bus write of the
    /// register address byte followed by the word, high byte first.
    fn write_register(&mut self, register: u8, data: u16) -> (r: Result<(), Error<I2C::BusErr>>)
        ensures
            final(self).addr() == old(self).addr(),
            r is Ok ==> final(self).bus().history() == old(self).bus().history().push(
                write_op(old(self).addr(), register, data),
            ),
            r is Err ==> final(self).bus().history() == old(self).bus().history(),
    {
        proof {
            assert(data >> 8u16 < 256 && (data & 0xff) < 256) by (bit_vector);
        }
        let hi: u8 = (data >> 8) as u8;
        let lo: u8 = (data & 0xff) as u8;
        let bytes: Vec<u8> = three_bytes(register, hi, lo);
        match self.i2c.bus_write(self.address, bytes) {
            Ok(_) => Ok(()),
            Err(e) => Err(Error::I2C(e)),
        }
    }

    /// Reads the register `register`: one bus exchange that writes the
    /// register address byte and reads the word back, high byte first.
    fn read_register(&mut self, register: u8) -> (r: Result<u16, Error<I2C::BusErr>>)
        ensures
            final(self).addr() == old(self).addr(),
            r matches Ok(v) ==> final(self).bus().history() == old(self).bus().history().push(
                read_op(old(self).addr(), register, v),
            ),
            r is Err ==> final(self).bus().history() == old(self).bus().history(),
    {
        let cmd: Vec<u8> = one_byte(register);
        let resp: Vec<u8> = match self.i2c.bus_write_read(self.address, cmd, 2) {
            Ok(d) => d,
            Err(e) => {
                return Err(Error::I2C(e));
            },
        };
        let hi: u8 = resp[0];
        let lo: u8 = resp[1];
        let value: u16 = ((hi as u16) << 8) | (lo as u16);
        proof {
            assert(((((hi as u16) << 8) | (lo as u16)) >> 8u16) as u8 == hi && ((((hi as u16) << 8)
                | (lo as u16)) & 0xff) as u8 == lo) by (bit_vector);
            assert(resp@ =~= seq![crate::bus::be_hi(value), crate::bus::be_lo(value)]);
        }
        Ok(value)
    }

    /// Read-modify-write: reads the register, replaces the bits selected by
    /// `mask` with the corresponding bits of `new_mask_value`, and writes the
    /// merged word back. A read failure aborts before any write.
    fn update_register(&mut self, register: u8, mask: u16, new_mask_value: u16) -> (r: Result<
        (),
        Error<I2C::BusErr>,
    >)
        ensures
            final(self).addr() == old(self).addr(),
            r is Ok ==> exists|v: u16|
                final(self).bus().history() == old(self).bus().history().push(
                    #[trigger] read_op(old(self).addr(), register, v),
                ).push(write_op(old(self).addr(), register, merge_spec(v, mask, new_mask_value))),
            r is Err ==> final(self).bus().history() == old(self).bus().history() || exists|v: u16|
                final(self).bus().history() == old(self).bus().history().push(
                    #[trigger] read_op(old(self).addr(), register, v),
                ),
    {
        let data: u16 = match self.read_register(register) {
            Ok(d) => d,
            Err(e) => {
                return Err(e);
            },
        };
        let r = self.update_register_by_old(register, data, mask, new_mask_value);
        proof {
            if r is Ok {
                assert(self.bus().history() == old(self).bus().history().push(
                    read_op(old(self).addr(), register, data),
                ).push(write_op(old(self).addr(), register, merge_spec(data, mask, new_mask_value))));
            } else {
                assert(self.bus().history() == old(self).bus().history().push(
                    read_op(old(self).addr(), register, data),
                ));
            }
        }
        r
    }

    /// The write half of a read-modify-write whose read value the caller
    /// already holds: merges `new_value`'s bits under `mask` into `old_value`
    /// and writes the result.
    fn update_register_by_old(
        &mut self,
        register: u8,
        old_value: u16,
        mask: u16,
        new_value: u16,
    ) -> (r: Result<(), Error<I2C::BusErr>>)
        ensures
            final(self).addr() == old(self).addr(),
            r is Ok ==> final(self).bus().history() == old(self).bus().history().push(
                write_op(old(self).addr(), register, merge_spec(old_value, mask, new_value)),
            ),
            r is Err ==> final(self).bus().history() == old(self).bus().history(),
    {
        let new_mask_value: u16 = crate::bitfield::merge(old_value, mask, new_value);
        self.write_register(register, new_mask_value)
    }

    /// Reads the chip-id register and compares it with the known chip
    /// identity. A mismatch is an ordinary `false`, never an error.
    pub fn check_id(&mut self) -> (r: Result<bool, Error<I2C::BusErr>>)
        ensures
            final(self).addr() == old(self).addr(),
            r matches Ok(found) ==> exists|v: u16|
                final(self).bus().history() == old(self).bus().history().push(
                    #[trigger] read_op(old(self).addr(), Register::RDA5807M_REG_CHIPID, v),
                ) && found == (v == DEVICE_ID),
            r is Err ==> final(self).bus().history() == old(self).bus().history(),
    {
        let id: u16 = match self.read_register(Register::RDA5807M_REG_CHIPID) {
            Ok(d) => d,
            Err(e) => {
                return Err(e);
            },
        };
        proof {
            assert(self.bus().history() == old(self).bus().history().push(
                read_op(old(self).addr(), Register::RDA5807M_REG_CHIPID, id),
            ));
        }
        Ok(id == DEVICE_ID)
    }

    /// Starts the device: exactly two register writes in order, the fixed
    /// default config word, then the fixed tuning word selecting the
    /// 87-108 MHz band with 100 kHz spacing, whatever the prior state.
    pub fn start(&mut self) -> (r: Result<(), Error<I2C::BusErr>>)
        ensures
            final(self).addr() == old(self).addr(),
            r is Ok ==> final(self).bus().history() == old(self).bus().history().push(
                write_op(
                    old(self).addr(),
                    Register::RDA5807M_REG_CONFIG,
                    ConfigBitFlags::DHIZ | ConfigBitFlags::DMUTE | ConfigBitFlags::BASS
                        | ConfigBitFlags::SEEKUP | ConfigBitFlags::RDS | ConfigBitFlags::NEW
                        | ConfigBitFlags::ENABLE,
                ),
            ).push(
                write_op(
                    old(self).addr(),
                    Register::RDA5807M_REG_TUNING,
                    TuningBitFlag::BAND_87_108_MHZ | TuningBitFlag::SPACE_100_KHZ,
                ),
            ),
            r is Err ==> final(self).bus().history() == old(self).bus().history() || final(self).bus().history() == old(self).bus().history().push(
                write_op(
                    old(self).addr(),
                    Register::RDA5807M_REG_CONFIG,
                    ConfigBitFlags::DHIZ | ConfigBitFlags::DMUTE | ConfigBitFlags::BASS
                        | ConfigBitFlags::SEEKUP | ConfigBitFlags::RDS | ConfigBitFlags::NEW
                        | ConfigBitFlags::ENABLE,
                ),
            ),
    {
        let config: u16 = ConfigBitFlags::DHIZ | ConfigBitFlags::DMUTE | ConfigBitFlags::BASS
            | ConfigBitFlags::SEEKUP | ConfigBitFlags::RDS | ConfigBitFlags::NEW
            | ConfigBitFlags::ENABLE;
        let tuning: u16 = TuningBitFlag::BAND_87_108_MHZ | TuningBitFlag::SPACE_100_KHZ;
        match self.write_register(Register::RDA5807M_REG_CONFIG, config) {
            Ok(_) => (),
            Err(e) => {
                return Err(e);
            },
        };
        self.write_register(Register::RDA5807M_REG_TUNING, tuning)
    }

    /// Stops the device: writes an all-zero config word, disabling every
    /// feature including power-up.
    pub fn stop(&mut self) -> (r: Result<(), Error<I2C::BusErr>>)
        ensures
            final(self).addr() == old(self).addr(),
            r is Ok ==> final(self).bus().history() == old(self).bus().history().push(
                write_op(old(self).addr(), Register::RDA5807M_REG_CONFIG, 0),
            ),
            r is Err ==> final(self).bus().history() == old(self).bus().history(),
    {
        self.write_register(Register::RDA5807M_REG_CONFIG, 0x0)
    }

    /// Releases the transport back to the caller; no hardware side effect.
    pub fn destroy(self) -> (r: I2C)
        ensures
            r == self.bus(),
    {
        self.i2c
    }

    /// Sets the volume level. Levels above 15 saturate to 15; every other
    /// bit of the volume register is preserved by read-modify-write.
    pub fn set_volume(&mut self, volume: u8) -> (r: Result<(), Error<I2C::BusErr>>)
        ensures
            final(self).addr() == old(self).addr(),
            r is Ok ==> exists|v: u16|
                final(self).bus().history() == old(self).bus().history().push(
                    #[trigger] read_op(old(self).addr(), Register::RDA5807M_REG_VOLUME, v),
                ).push(
                    write_op(
                        old(self).addr(),
                        Register::RDA5807M_REG_VOLUME,
                        merge_spec(v, VolumeBitFlag::VOLUME_MASK, clamped_volume(volume)),
                    ),
                ),
            r is Err ==> final(self).bus().history() == old(self).bus().history() || exists|v: u16|
                final(self).bus().history() == old(self).bus().history().push(
                    #[trigger] read_op(old(self).addr(), Register::RDA5807M_REG_VOLUME, v),
                ),
    {
        let mut volume = volume;
        if volume > 15 {
            volume = 15;
        }
        self.update_register(
            Register::RDA5807M_REG_VOLUME,
            VolumeBitFlag::VOLUME_MASK,
            volume as u16,
        )
    }

    /// Reads the volume register and decodes it.
    pub fn get_volume(&mut self) -> (r: Result<VolumeRegister, Error<I2C::BusErr>>)
        ensures
            final(self).addr() == old(self).addr(),
            r matches Ok(vol) ==> exists|v: u16|
                final(self).bus().history() == old(self).bus().history().push(
                    #[trigger] read_op(old(self).addr(), Register::RDA5807M_REG_VOLUME, v),
                ) && vol == volume_register_spec(v),
            r is Err ==> final(self).bus().history() == old(self).bus().history(),
    {
        let config: u16 = match self.read_register(Register::RDA5807M_REG_VOLUME) {
            Ok(d) => d,
            Err(e) => {
                return Err(e);
            },
        };
        proof {
            assert(self.bus().history() == old(self).bus().history().push(
                read_op(old(self).addr(), Register::RDA5807M_REG_VOLUME, config),
            ));
        }
        Ok(VolumeRegister::from_u16(config))
    }

    /// Sets or clears the mute-disable bit. The bit's sense is inverted in
    /// hardware: a set bit means "not muted", and this operation follows the
    /// convention of the chip family that `mute(true)` sets the bit.
    pub fn mute(&mut self, mute: bool) -> (r: Result<(), Error<I2C::BusErr>>)
        ensures
            final(self).addr() == old(self).addr(),
            r is Ok ==> exists|v: u16|
                final(self).bus().history() == old(self).bus().history().push(
                    #[trigger] read_op(old(self).addr(), Register::RDA5807M_REG_CONFIG, v),
                ).push(
                    write_op(
                        old(self).addr(),
                        Register::RDA5807M_REG_CONFIG,
                        merge_spec(
                            v,
                            ConfigBitFlags::DMUTE,
                            if mute {
                                ConfigBitFlags::DMUTE
                            } else {
                                0u16
                            },
                        ),
                    ),
                ),
            r is Err ==> final(self).bus().history() == old(self).bus().history() || exists|v: u16|
                final(self).bus().history() == old(self).bus().history().push(
                    #[trigger] read_op(old(self).addr(), Register::RDA5807M_REG_CONFIG, v),
                ),
    {
        self.update_register(
            Register::RDA5807M_REG_CONFIG,
            ConfigBitFlags::DMUTE,
            if mute {
                ConfigBitFlags::DMUTE
            } else {
                0
            },
        )
    }

    /// Sets the seek signal threshold: the lower the threshold, the more
    /// stations a seek stops at. The default threshold of the chip is 8.
    pub fn set_seek_threshold(&mut self, threshold: u8) -> (r: Result<(), Error<I2C::BusErr>>)
        ensures
            final(self).addr() == old(self).addr(),
            r is Ok ==> exists|v: u16|
                final(self).bus().history() == old(self).bus().history().push(
                    #[trigger] read_op(old(self).addr(), Register::RDA5807M_REG_VOLUME, v),
                ).push(
                    write_op(
                        old(self).addr(),
                        Register::RDA5807M_REG_VOLUME,
                        merge_spec(
                            v,
                            VolumeBitFlag::SEEK_TH_MASK,
                            (threshold as u16) << VolumeBitFlag::SEEK_TH_SHIFT,
                        ),
                    ),
                ),
            r is Err ==> final(self).bus().history() == old(self).bus().history() || exists|v: u16|
                final(self).bus().history() == old(self).bus().history().push(
                    #[trigger] read_op(old(self).addr(), Register::RDA5807M_REG_VOLUME, v),
                ),
    {
        self.update_register(
            Register::RDA5807M_REG_VOLUME,
            VolumeBitFlag::SEEK_TH_MASK,
            (threshold as u16) << VolumeBitFlag::SEEK_TH_SHIFT,
        )
    }

    /// Steps the volume up by one, saturating at 15. The write preserves the
    /// other bits of the word the read returned, not of a fresh read.
    pub fn volume_up(&mut self) -> (r: Result<(), Error<I2C::BusErr>>)
        ensures
            final(self).addr() == old(self).addr(),
            r is Ok ==> exists|v: u16|
                final(self).bus().history() == old(self).bus().history().push(
                    #[trigger] read_op(old(self).addr(), Register::RDA5807M_REG_VOLUME, v),
                ).push(
                    write_op(
                        old(self).addr(),
                        Register::RDA5807M_REG_VOLUME,
                        merge_spec(v, VolumeBitFlag::VOLUME_MASK, volume_up_value(v)),
                    ),
                ),
            r is Err ==> final(self).bus().history() == old(self).bus().history() || exists|v: u16|
                final(self).bus().history() == old(self).bus().history().push(
                    #[trigger] read_op(old(self).addr(), Register::RDA5807M_REG_VOLUME, v),
                ),
    {
        let config: u16 = match self.read_register(Register::RDA5807M_REG_VOLUME) {
            Ok(d) => d,
            Err(e) => {
                return Err(e);
            },
        };
        let volume: u16 = config & VolumeBitFlag::VOLUME_MASK;
        let new_volume: u16 = if volume >= 15 {
            15
        } else {
            volume + 1
        };
        let r = self.update_register_by_old(
            Register::RDA5807M_REG_VOLUME,
            config,
            VolumeBitFlag::VOLUME_MASK,
            new_volume,
        );
        proof {
            if r is Ok {
                assert(self.bus().history() == old(self).bus().history().push(
                    read_op(old(self).addr(), Register::RDA5807M_REG_VOLUME, config),
                ).push(
                    write_op(
                        old(self).addr(),
                        Register::RDA5807M_REG_VOLUME,
                        merge_spec(config, VolumeBitFlag::VOLUME_MASK, volume_up_value(config)),
                    ),
                ));
            } else {
                assert(self.bus().history() == old(self).bus().history().push(
                    read_op(old(self).addr(), Register::RDA5807M_REG_VOLUME, config),
                ));
            }
        }
        r
    }

    /// Steps the volume down by one, stopping at 0: a step at level 0 leaves
    /// the level at 0 rather than wrapping. The write preserves the other
    /// bits of the word the read returned.
    pub fn volume_down(&mut self) -> (r: Result<(), Error<I2C::BusErr>>)
        ensures
            final(self).addr() == old(self).addr(),
            r is Ok ==> exists|v: u16|
                final(self).bus().history() == old(self).bus().history().push(
                    #[trigger] read_op(old(self).addr(), Register::RDA5807M_REG_VOLUME, v),
                ).push(
                    write_op(
                        old(self).addr(),
                        Register::RDA5807M_REG_VOLUME,
                        merge_spec(v, VolumeBitFlag::VOLUME_MASK, volume_down_value(v)),
                    ),
                ),
            r is Err ==> final(self).bus().history() == old(self).bus().history() || exists|v: u16|
                final(self).bus().history() == old(self).bus().history().push(
                    #[trigger] read_op(old(self).addr(), Register::RDA5807M_REG_VOLUME, v),
                ),
    {
        let config: u16 = match self.read_register(Register::RDA5807M_REG_VOLUME) {
            Ok(d) => d,
            Err(e) => {
                return Err(e);
            },
        };
        let volume: u16 = config & VolumeBitFlag::VOLUME_MASK;
        let new_volume: u16 = if volume == 0 {
            0
        } else {
            volume - 1
        };
        let r = self.update_register_by_old(
            Register::RDA5807M_REG_VOLUME,
            config,
            VolumeBitFlag::VOLUME_MASK,
            new_volume,
        );
        proof {
            if r is Ok {
                assert(self.bus().history() == old(self).bus().history().push(
                    read_op(old(self).addr(), Register::RDA5807M_REG_VOLUME, config),
                ).push(
                    write_op(
                        old(self).addr(),
                        Register::RDA5807M_REG_VOLUME,
                        merge_spec(config, VolumeBitFlag::VOLUME_MASK, volume_down_value(config)),
                    ),
                ));
            } else {
                assert(self.bus().history() == old(self).bus().history().push(
                    read_op(old(self).addr(), Register::RDA5807M_REG_VOLUME, config),
                ));
            }
        }
        r
    }

    /// Starts an upward seek, wrapping at the band edge when `wrap` is true
    /// and stopping there when it is false. The seek runs in hardware; poll
    /// the status register for completion or failure.
    pub fn seek_up(&mut self, wrap: bool) -> (r: Result<(), Error<I2C::BusErr>>)
        ensures
            final(self).addr() == old(self).addr(),
            r is Ok ==> exists|v: u16|
                final(self).bus().history() == old(self).bus().history().push(
                    #[trigger] read_op(old(self).addr(), Register::RDA5807M_REG_CONFIG, v),
                ).push(
                    write_op(
                        old(self).addr(),
                        Register::RDA5807M_REG_CONFIG,
                        merge_spec(
                            v,
                            ConfigBitFlags::SEEKUP | ConfigBitFlags::SEEK | ConfigBitFlags::SKMODE,
                            ConfigBitFlags::SEEKUP | ConfigBitFlags::SEEK | (
                            if wrap {
                                0u16
                            } else {
                                ConfigBitFlags::SKMODE
                            }),
                        ),
                    ),
                ),
            r is Err ==> final(self).bus().history() == old(self).bus().history() || exists|v: u16|
                final(self).bus().history() == old(self).bus().history().push(
                    #[trigger] read_op(old(self).addr(), Register::RDA5807M_REG_CONFIG, v),
                ),
    {
        self.update_register(
            Register::RDA5807M_REG_CONFIG,
            ConfigBitFlags::SEEKUP | ConfigBitFlags::SEEK | ConfigBitFlags::SKMODE,
            ConfigBitFlags::SEEKUP | ConfigBitFlags::SEEK | (
            if wrap {
                0
            } else {
                ConfigBitFlags::SKMODE
            }),
        )
    }

    /// Starts a downward seek, wrapping at the band edge when `wrap` is true
    /// and stopping there when it is false.
    pub fn seek_down(&mut self, wrap: bool) -> (r: Result<(), Error<I2C::BusErr>>)
        ensures
            final(self).addr() == old(self).addr(),
            r is Ok ==> exists|v: u16|
                final(self).bus().history() == old(self).bus().history().push(
                    #[trigger] read_op(old(self).addr(), Register::RDA5807M_REG_CONFIG, v),
                ).push(
                    write_op(
                        old(self).addr(),
                        Register::RDA5807M_REG_CONFIG,
                        merge_spec(
                            v,
                            ConfigBitFlags::SEEKUP | ConfigBitFlags::SEEK | ConfigBitFlags::SKMODE,
                            ConfigBitFlags::SEEK | (
                            if wrap {
                                0u16
                            } else {
                                ConfigBitFlags::SKMODE
                            }),
                        ),
                    ),
                ),
            r is Err ==> final(self).bus().history() == old(self).bus().history() || exists|v: u16|
                final(self).bus().history() == old(self).bus().history().push(
                    #[trigger] read_op(old(self).addr(), Register::RDA5807M_REG_CONFIG, v),
                ),
    {
        self.update_register(
            Register::RDA5807M_REG_CONFIG,
            ConfigBitFlags::SEEKUP | ConfigBitFlags::SEEK | ConfigBitFlags::SKMODE,
            ConfigBitFlags::SEEK | (
            if wrap {
                0
            } else {
                ConfigBitFlags::SKMODE
            }),
        )
    }

    /// Reads the signal-strength register and returns the RSSI field.
    pub fn get_rssi(&mut self) -> (r: Result<u8, Error<I2C::BusErr>>)
        ensures
            final(self).addr() == old(self).addr(),
            r matches Ok(rssi) ==> exists|v: u16|
                final(self).bus().history() == old(self).bus().history().push(
                    #[trigger] read_op(old(self).addr(), Register::RDA5807M_REG_RSSI, v),
                ) && rssi == extract_spec(v, RssiBitFlag::RSSI_MASK, RssiBitFlag::RSSI_SHIFT) as u8,
            r is Err ==> final(self).bus().history() == old(self).bus().history(),
    {
        let rssi: u16 = match self.read_register(Register::RDA5807M_REG_RSSI) {
            Ok(d) => d,
            Err(e) => {
                return Err(e);
            },
        };
        proof {
            assert(self.bus().history() == old(self).bus().history().push(
                read_op(old(self).addr(), Register::RDA5807M_REG_RSSI, rssi),
            ));
            assert((rssi & 0b1111_1110_0000_0000u16) >> 9u16 < 256) by (bit_vector);
        }
        Ok(((rssi & RssiBitFlag::RSSI_MASK) >> RssiBitFlag::RSSI_SHIFT) as u8)
    }

    /// Reads the tuning register and returns its band selector, spacing
    /// selector and the full word.
    fn get_band_and_spacing(&mut self) -> (r: Result<(u8, u8, u16), Error<I2C::BusErr>>)
        ensures
            final(self).addr() == old(self).addr(),
            r matches Ok(t) ==> final(self).bus().history() == old(self).bus().history().push(
                read_op(old(self).addr(), Register::RDA5807M_REG_TUNING, t.2),
            ) && t.0 == band_sel(t.2) && t.1 == space_sel(t.2),
            r is Err ==> final(self).bus().history() == old(self).bus().history(),
    {
        let config: u16 = match self.read_register(Register::RDA5807M_REG_TUNING) {
            Ok(d) => d,
            Err(e) => {
                return Err(e);
            },
        };
        proof {
            assert((config & 0b0000_0000_0000_1100u16) >> 2u16 < 256 && (config
                & 0b0000_0000_0000_0011u16) < 256) by (bit_vector);
        }
        let band: u8 = ((config & TuningBitFlag::BAND_MASK) >> TuningBitFlag::BAND_SHIFT) as u8;
        let spacing: u8 = (config & TuningBitFlag::SPACE_MASK) as u8;
        Ok((band, spacing, config))
    }

    /// Reads the tuned frequency in kHz: the band and spacing come from the
    /// tuning register, the channel from the status register's read-channel
    /// field, the hardware-authoritative value after a seek or tune.
    pub fn get_frequency(&mut self) -> (r: Result<u32, Error<I2C::BusErr>>)
        ensures
            final(self).addr() == old(self).addr(),
            r matches Ok(freq) ==> exists|t: u16, s: u16|
                final(self).bus().history() == old(self).bus().history().push(
                    #[trigger] read_op(old(self).addr(), Register::RDA5807M_REG_TUNING, t),
                ).push(
                    #[trigger] read_op(old(self).addr(), Register::RDA5807M_REG_STATUS, s),
                ) && freq == channel_to_frequency_spec(
                    band_sel(t),
                    space_sel(t),
                    s & StatusBitFlag::READ_CHAN_MASK,
                ),
            r is Err ==> final(self).bus().history() == old(self).bus().history() || exists|t: u16|
                final(self).bus().history() == old(self).bus().history().push(
                    #[trigger] read_op(old(self).addr(), Register::RDA5807M_REG_TUNING, t),
                ),
    {
        let (band, spacing, tuning_word) = match self.get_band_and_spacing() {
            Ok(t) => t,
            Err(e) => {
                return Err(e);
            },
        };
        let status: StatusRegister = match self.get_status() {
            Ok(s) => s,
            Err(e) => {
                proof {
                    assert(self.bus().history() == old(self).bus().history().push(
                        read_op(old(self).addr(), Register::RDA5807M_REG_TUNING, tuning_word),
                    ));
                }
                return Err(e);
            },
        };
        let freq: u32 = crate::tuning::channel_to_frequency(band, spacing, status.readchan);
        proof {
            let s = choose|s: u16|
                self.bus().history() == old(self).bus().history().push(
                    read_op(old(self).addr(), Register::RDA5807M_REG_TUNING, tuning_word),
                ).push(#[trigger] read_op(old(self).addr(), Register::RDA5807M_REG_STATUS, s))
                    && status == status_register_spec(s);
            assert(self.bus().history() == old(self).bus().history().push(
                read_op(old(self).addr(), Register::RDA5807M_REG_TUNING, tuning_word),
            ).push(read_op(old(self).addr(), Register::RDA5807M_REG_STATUS, s)) && freq
                == channel_to_frequency_spec(
                band_sel(tuning_word),
                space_sel(tuning_word),
                s & StatusBitFlag::READ_CHAN_MASK,
            ));
        }
        Ok(freq)
    }

    /// Tunes to `freq` (in kHz): reads the tuning register once for the
    /// current band and spacing, computes the band-relative channel by
    /// integer division (flooring toward the band base), and writes the word
    /// back with the new channel and the tune-start flag, preserving the
    /// band and spacing bits. A set-then-get round trip is exact only when
    /// `freq` lies on the configured spacing grid above the band base, and a
    /// frequency below the active band's base tunes to channel 0, the base
    /// itself.
    pub fn set_frequency(&mut self, freq: u32) -> (r: Result<(), Error<I2C::BusErr>>)
        ensures
            final(self).addr() == old(self).addr(),
            r is Ok ==> exists|t: u16|
                final(self).bus().history() == old(self).bus().history().push(
                    #[trigger] read_op(old(self).addr(), Register::RDA5807M_REG_TUNING, t),
                ).push(
                    write_op(
                        old(self).addr(),
                        Register::RDA5807M_REG_TUNING,
                        merge_spec(
                            t,
                            TuningBitFlag::CHAN_MASK | TuningBitFlag::TUNE,
                            tuning_update_bits(t, freq),
                        ),
                    ),
                ),
            r is Err ==> final(self).bus().history() == old(self).bus().history() || exists|t: u16|
                final(self).bus().history() == old(self).bus().history().push(
                    #[trigger] read_op(old(self).addr(), Register::RDA5807M_REG_TUNING, t),
                ),
    {
        let (band, spacing, tuning_word) = match self.get_band_and_spacing() {
            Ok(t) => t,
            Err(e) => {
                return Err(e);
            },
        };
        proof {
            assert((tuning_word & 0b0000_0000_0000_0011u16) < 4) by (bit_vector);
        }
        let chan: u32 = crate::tuning::frequency_to_channel(band, spacing, freq);
        let chan_low: u16 = (chan % 1024) as u16;
        let new_bits: u16 = (chan_low << TuningBitFlag::CHAN_SHIFT) | TuningBitFlag::TUNE;
        let mask: u16 = TuningBitFlag::CHAN_MASK | TuningBitFlag::TUNE;
        let r = self.update_register_by_old(
            Register::RDA5807M_REG_TUNING,
            tuning_word,
            mask,
            new_bits,
        );
        proof {
            if r is Ok {
                assert(self.bus().history() == old(self).bus().history().push(
                    read_op(old(self).addr(), Register::RDA5807M_REG_TUNING, tuning_word),
                ).push(
                    write_op(
                        old(self).addr(),
                        Register::RDA5807M_REG_TUNING,
                        merge_spec(
                            tuning_word,
                            TuningBitFlag::CHAN_MASK | TuningBitFlag::TUNE,
                            tuning_update_bits(tuning_word, freq),
                        ),
                    ),
                ));
            } else {
                assert(self.bus().history() == old(self).bus().history().push(
                    read_op(old(self).addr(), Register::RDA5807M_REG_TUNING, tuning_word),
                ));
            }
        }
        r
    }

    /// Reads the status register and decodes it.
    pub fn get_status(&mut self) -> (r: Result<StatusRegister, Error<I2C::BusErr>>)
        ensures
            final(self).addr() == old(self).addr(),
            r matches Ok(status) ==> exists|v: u16|
                final(self).bus().history() == old(self).bus().history().push(
                    #[trigger] read_op(old(self).addr(), Register::RDA5807M_REG_STATUS, v),
                ) && status == status_register_spec(v),
            r is Err ==> final(self).bus().history() == old(self).bus().history(),
    {
        let status_flag: u16 = match self.read_register(Register::RDA5807M_REG_STATUS) {
            Ok(d) => d,
            Err(e) => {
                return Err(e);
            },
        };
        proof {
            assert(self.bus().history() == old(self).bus().history().push(
                read_op(old(self).addr(), Register::RDA5807M_REG_STATUS, status_flag),
            ));
        }
        Ok(StatusRegister::from_u16(status_flag))
    }
}

/// A requested volume level above 15 saturates: `set_volume` writes exactly
/// the same field value for any such level as it does for 15, so the two
/// calls behave identically.
pub proof fn lemma_set_volume_saturates(level: u8)
    requires
        level > 15,
    ensures
        clamped_volume(level) == clamped_volume(15),
{
}

/// Stepping the volume up when the register already reads level 15 writes
/// the word back unchanged: the level stays at 15, nothing overflows.
pub proof fn lemma_volume_up_saturates(word: u16)
    requires
        word & VolumeBitFlag::VOLUME_MASK == 15,
    ensures
        merge_spec(word, VolumeBitFlag::VOLUME_MASK, volume_up_value(word)) == word,
{
    assert((15u16 & 0b0000_0000_0000_1111u16) | (word & !0b0000_0000_0000_1111u16) == word)
        by (bit_vector)
        requires
            word & 0b0000_0000_0000_1111u16 == 15,
    ;
}

/// Stepping the volume down when the register reads level 0 writes the word
/// back unchanged: the level stays at 0 instead of wrapping around to 15.
pub proof fn lemma_volume_down_stops_at_zero(word: u16)
    requires
        word & VolumeBitFlag::VOLUME_MASK == 0,
    ensures
        merge_spec(word, VolumeBitFlag::VOLUME_MASK, volume_down_value(word)) == word,
{
    assert((0u16 & 0b0000_0000_0000_1111u16) | (word & !0b0000_0000_0000_1111u16) == word)
        by (bit_vector)
        requires
            word & 0b0000_0000_0000_1111u16 == 0,
    ;
}

/// An 8-bit bus device address. Two presets exist, for sequential and for
/// random access mode; on this chip family they share one numeric value but
/// remain distinct symbols.
#[derive(Debug, Copy, Clone, PartialEq, Eq, Hash, Structural)]
pub struct Address(u8);

impl Address {
    /// The raw address byte.
    pub closed spec fn value(self) -> u8 {
        self.0
    }

    /// The preset address for sequential access mode.
    pub fn seq() -> (r: Self)
        ensures
            r.value() == DEVICE_BASE_SEQ_ADDRESS,
    {
        Address(DEVICE_BASE_SEQ_ADDRESS)
    }
}

impl Default for Address {
    /// The preset address for random access mode.
    fn default() -> (r: Self)
        ensures
            r.value() == DEVICE_BASE_RANDOM_ADDRESS,
    {
        Address(DEVICE_BASE_RANDOM_ADDRESS)
    }
}

impl From<u8> for Address {
    fn from(value: u8) -> (r: Self)
        ensures
            r.value() == value,
    {
        Address(value)
    }
}

impl vstd::std_specs::convert::FromSpecImpl<u8> for Address {
    open spec fn obeys_from_spec() -> bool {
        true
    }

    closed spec fn from_spec(v: u8) -> Self {
        Address(v)
    }
}

} // verus!
