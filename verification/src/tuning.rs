use crate::register_address::TuningBitFlag;
use vstd::prelude::*;

verus! {

/// The band selector held in a tuning-register word.
pub open spec fn band_sel(word: u16) -> u8 {
    ((word & TuningBitFlag::BAND_MASK) >> TuningBitFlag::BAND_SHIFT) as u8
}

/// The channel-spacing selector held in a tuning-register word.
pub open spec fn space_sel(word: u16) -> u8 {
    (word & TuningBitFlag::SPACE_MASK) as u8
}

/// The base frequency of a band, in kHz. Selectors above 3 name no band.
pub open spec fn band_base(band: u8) -> u32 {
    if band == 0 {
        87_000
    } else if band == 1 || band == 2 {
        76_000
    } else if band == 3 {
        65_000
    } else {
        0
    }
}

/// The channel spacing a selector stands for, in kHz. Selectors above 3 name
/// no spacing.
pub open spec fn spacing_khz(spacing: u8) -> u32 {
    if spacing == 0 {
        100
    } else if spacing == 1 {
        200
    } else if spacing == 2 {
        50
    } else if spacing == 3 {
        25
    } else {
        0
    }
}

/// The frequency, in kHz, of `channel` under the given band and spacing
/// selectors: the band's base frequency plus the spacing times the channel.
/// A band selector above 3 names no band and maps to 0.
pub open spec fn channel_to_frequency_spec(band: u8, spacing: u8, channel: u16) -> u32 {
    if band > 3 {
        0
    } else {
        (band_base(band) + spacing_khz(spacing) * channel) as u32
    }
}

/// The band-relative channel of `freq` (in kHz) under the given band and
/// spacing selectors, by integer division: fractional remainders are
/// discarded, so the channel floors toward the band base, and a frequency
/// below the base maps to channel 0. A band selector above 3 names no band
/// and maps to 0.
pub open spec fn frequency_to_channel_spec(band: u8, spacing: u8, freq: u32) -> u32 {
    if band > 3 || freq < band_base(band) {
        0
    } else {
        ((freq - band_base(band)) / spacing_khz(spacing) as int) as u32
    }
}

/// The frequency, in kHz, of a band-relative channel under the given band
/// and channel-spacing selectors.
pub fn channel_to_frequency(band: u8, spacing: u8, channel: u16) -> (freq: u32)
    ensures
        freq == channel_to_frequency_spec(band, spacing, channel),
{
    let spacing_khz: u32 = match spacing {
        0b00 => 100,
        0b01 => 200,
        0b10 => 50,
        0b11 => 25,
        _ => 0,
    };
    let chan: u32 = channel as u32;
    match band {
        0b00 => 87_000 + spacing_khz * chan,
        0b01 | 0b10 => 76_000 + spacing_khz * chan,
        0b11 => 65_000 + spacing_khz * chan,
        _ => 0,
    }
}

/// The band-relative channel whose frequency is nearest `freq` (in kHz) from
/// below, under the given band and channel-spacing selectors.
pub fn frequency_to_channel(band: u8, spacing: u8, freq: u32) -> (channel: u32)
    requires
        spacing <= 3,
    ensures
        channel == frequency_to_channel_spec(band, spacing, freq),
{
    let spacing_khz: u32 = match spacing {
        0b00 => 100,
        0b01 => 200,
        0b10 => 50,
        _ => 25,
    };
    let base: u32 = match band {
        0b00 => 87_000,
        0b01 | 0b10 => 76_000,
        0b11 => 65_000,
        _ => 0,
    };
    if band > 3 || freq < base {
        0
    } else {
        (freq - base) / spacing_khz
    }
}

/// A set-then-get frequency round trip is exact precisely on the spacing
/// grid: for a valid band and spacing, a frequency at or above the band base
/// whose channel fits the ten-bit field converts to a channel and back to
/// the frequency minus the remainder above the base, floored away by the
/// integer division. The round trip returns the frequency itself exactly
/// when that offset is a multiple of the spacing.
pub proof fn lemma_frequency_round_trip(band: u8, spacing: u8, freq: u32)
    requires
        band <= 3,
        spacing <= 3,
        freq >= band_base(band),
        frequency_to_channel_spec(band, spacing, freq) < 1024,
    ensures
        channel_to_frequency_spec(
            band,
            spacing,
            frequency_to_channel_spec(band, spacing, freq) as u16,
        ) == freq - ((freq - band_base(band)) % (spacing_khz(spacing) as int)),
        channel_to_frequency_spec(
            band,
            spacing,
            frequency_to_channel_spec(band, spacing, freq) as u16,
        ) == freq <==> (freq - band_base(band)) % (spacing_khz(spacing) as int) == 0,
{
    let base = band_base(band) as int;
    let s = spacing_khz(spacing) as int;
    let d = freq - base;
    vstd::arithmetic::div_mod::lemma_fundamental_div_mod(d, s);
    vstd::arithmetic::div_mod::lemma_mod_bound(d, s);
}

} // verus!
