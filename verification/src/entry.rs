//! What the listener types: which range a typed value is held to, and how a
//! typed number is parted from its unit.

use vstd::prelude::*;
use crate::config::{
    ALPHA_MAX_BITS, ALPHA_MIN_BITS, HIGH_CEILING_BITS, LOW_CEILING_BITS, MID_CEILING_BITS,
};
use crate::single::{Single, single, ONE_BITS, TEN_BITS, ZERO_BITS};

verus! {

/// Pattern of `65535.0`, the greatest seed as a typed value.
pub const SEED_CEILING_BITS: u32 = 0x477f_ff00;

/// A setting that takes a typed number.
#[derive(Clone, Copy, Debug, PartialEq, Eq, Structural)]
pub enum Setting {
    Volume,
    Alpha,
    BandLowLo,
    BandLowHi,
    BandMidLo,
    BandMidHi,
    BandHighLo,
    BandHighHi,
    BandVolumeLow,
    BandVolumeMid,
    BandVolumeHigh,
    BassBoost,
    Seed,
}

impl Setting {
    /// The least and the greatest value of the setting.
    pub open spec fn range(self) -> (Single, Single) {
        match self {
            Setting::Volume => (single(ZERO_BITS), single(ONE_BITS)),
            Setting::Alpha => (single(ALPHA_MIN_BITS), single(ALPHA_MAX_BITS)),
            Setting::BandLowLo | Setting::BandLowHi => (
                single(ONE_BITS),
                single(LOW_CEILING_BITS),
            ),
            Setting::BandMidLo | Setting::BandMidHi => (
                single(ONE_BITS),
                single(MID_CEILING_BITS),
            ),
            Setting::BandHighLo | Setting::BandHighHi => (
                single(ONE_BITS),
                single(HIGH_CEILING_BITS),
            ),
            Setting::BandVolumeLow | Setting::BandVolumeMid | Setting::BandVolumeHigh
            | Setting::BassBoost => (single(ZERO_BITS), single(TEN_BITS)),
            Setting::Seed => (single(ZERO_BITS), single(SEED_CEILING_BITS)),
        }
    }

    /// The least and the greatest value of the setting.
    pub fn limits(self) -> (r: (Single, Single))
        ensures
            r == self.range(),
            !r.0.nan(),
            !r.1.nan(),
            r.0.rank() <= r.1.rank(),
    {
        match self {
            Setting::Volume => (Single::zero(), Single::one()),
            Setting::Alpha => (
                Single::from_bits(ALPHA_MIN_BITS),
                Single::from_bits(ALPHA_MAX_BITS),
            ),
            Setting::BandLowLo | Setting::BandLowHi => (
                Single::one(),
                Single::from_bits(LOW_CEILING_BITS),
            ),
            Setting::BandMidLo | Setting::BandMidHi => (
                Single::one(),
                Single::from_bits(MID_CEILING_BITS),
            ),
            Setting::BandHighLo | Setting::BandHighHi => (
                Single::one(),
                Single::from_bits(HIGH_CEILING_BITS),
            ),
            Setting::BandVolumeLow | Setting::BandVolumeMid | Setting::BandVolumeHigh
            | Setting::BassBoost => (Single::zero(), Single::from_bits(TEN_BITS)),
            Setting::Seed => (Single::zero(), Single::from_bits(SEED_CEILING_BITS)),
        }
    }

    /// Holds a typed value to the range of the setting. A not-a-number
    /// passes through.
    pub fn confine(self, value: Single) -> (r: Single)
        ensures
            r == value.clamped(self.range().0, self.range().1),
            r.held_to(self.range().0, self.range().1),
    {
        let (lo, hi) = self.limits();
        value.clamp(lo, hi)
    }
}

/// A typed number parted from its unit: the first `digits` characters are
/// the number, and `kilo` says that it counts thousands.
#[derive(Clone, Copy, Debug, PartialEq, Eq, Structural)]
pub struct Parted {
    pub digits: usize,
    pub kilo: bool,
}

/// Whether `text` ends with the three characters `khz`.
pub open spec fn ends_in_khz(text: Seq<char>) -> bool {
    &&& text.len() >= 3
    &&& text[text.len() - 3] == 'k'
    &&& text[text.len() - 2] == 'h'
    &&& text[text.len() - 1] == 'z'
}

/// The text without one trailing `%`, if it has one.
pub open spec fn without_percent(text: Seq<char>) -> Seq<char> {
    if text.len() > 0 && text.last() == '%' {
        text.drop_last()
    } else {
        text
    }
}

/// How a typed text parts into number and unit. The text is taken as
/// trimmed and in lower case. An empty text has no number. Else one trailing
/// `%` is dropped; what then ends with `khz` or with `k` loses that unit and
/// counts thousands.
pub open spec fn parted(text: Seq<char>) -> Option<Parted> {
    if text.len() == 0 {
        None
    } else {
        let t = without_percent(text);
        if ends_in_khz(t) {
            Some(Parted { digits: (t.len() - 3) as usize, kilo: true })
        } else if t.len() > 0 && t.last() == 'k' {
            Some(Parted { digits: (t.len() - 1) as usize, kilo: true })
        } else {
            Some(Parted { digits: t.len() as usize, kilo: false })
        }
    }
}

/// Parts a typed number from its unit.
pub fn split_unit(text: &[char]) -> (r: Option<Parted>)
    ensures
        r == parted(text@),
        r matches Some(p) ==> p.digits <= text@.len(),
{
    let mut n: usize = text.len();
    if n == 0 {
        return None;
    }
    if text[n - 1] == '%' {
        n = n - 1;
    }
    if n >= 3 && text[n - 3] == 'k' && text[n - 2] == 'h' && text[n - 1] == 'z' {
        Some(Parted { digits: n - 3, kilo: true })
    } else if n >= 1 && text[n - 1] == 'k' {
        Some(Parted { digits: n - 1, kilo: true })
    } else {
        Some(Parted { digits: n, kilo: false })
    }
}

} // verus!
