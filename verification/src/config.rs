//! The settings that the synthesis engine reads once per buffer.

use vstd::prelude::*;
use crate::bass_boost::BYPASS_BITS;
use crate::single::{Single, single, HALF_BITS, HUNDRED_BITS, ONE_BITS, TEN_BITS, ZERO_BITS};

verus! {

/// Pattern of `0.9`, the least smoothing factor.
pub const ALPHA_MIN_BITS: u32 = 0x3f66_6666;

/// Pattern of `0.9999`, the greatest smoothing factor.
pub const ALPHA_MAX_BITS: u32 = 0x3f7f_f972;

/// Pattern of `0.996`, the smoothing factor of a fresh configuration.
pub const ALPHA_DEFAULT_BITS: u32 = 0x3f7e_f9db;

/// Pattern of `0.2`.
pub const FIFTH_BITS: u32 = 0x3e4c_cccd;

/// Pattern of `60.0`.
pub const SIXTY_BITS: u32 = 0x4270_0000;

/// Pattern of `500.0`.
pub const FIVE_HUNDRED_BITS: u32 = 0x43fa_0000;

/// Pattern of `1000.0`, the ceiling of the low band.
pub const LOW_CEILING_BITS: u32 = 0x447a_0000;

/// Pattern of `5000.0`, the ceiling of the mid band.
pub const MID_CEILING_BITS: u32 = 0x459c_4000;

/// Pattern of `10000.0`, the ceiling of the high band.
pub const HIGH_CEILING_BITS: u32 = 0x461c_4000;

/// The greatest seed.
pub const SEED_MAX: u64 = 65535;

/// One snapshot of the settings.
#[derive(Clone, Copy, Debug)]
pub struct Config {
    /// Master volume (`0.0` to `1.0`).
    pub volume: Single,
    /// Band toggles.
    pub enable_low: bool,
    pub enable_mid: bool,
    pub enable_high: bool,
    /// Smoothing factor of the noise integrator (`0.9` to `0.9999`).
    pub alpha: Single,
    /// Frequency bands in Hz, each as lower and upper bound.
    pub band_low: [Single; 2],
    pub band_mid: [Single; 2],
    pub band_high: [Single; 2],
    /// Gain of each band (`0.0` to `10.0`).
    pub band_volume_low: Single,
    pub band_volume_mid: Single,
    pub band_volume_high: Single,
    /// Noise seed (0 to 65535).
    pub seed: u64,
    /// When true, `seed` is ignored and each session draws its own.
    pub random: bool,
    /// Bass gain in decibels (`0.0` to `10.0`).
    pub bass_boost: Single,
}

/// A seed brought into `0..=65535`.
pub open spec fn capped(seed: u64) -> u64 {
    if seed > SEED_MAX {
        SEED_MAX
    } else {
        seed
    }
}

/// A band after its two bounds were each restricted to `[lo, hi]` and put in
/// order: the pair is swapped where the first is numerically greater.
pub open spec fn ordered_pair(p: [Single; 2], lo: Single, hi: Single) -> (Single, Single) {
    let a = p[0].clamped(lo, hi);
    let b = p[1].clamped(lo, hi);
    if b.below(a) {
        (b, a)
    } else {
        (a, b)
    }
}

/// A band moved up so that it starts no lower than `floor`, the end of the
/// band beneath it: where `floor` is above the band's start, the start
/// becomes `floor` restricted to `[lo, hi]`, and the end follows if it would
/// fall below the new start.
pub open spec fn raised_pair(p: (Single, Single), floor: Single, lo: Single, hi: Single) -> (
    Single,
    Single,
) {
    if p.0.below(floor) {
        let start = floor.clamped(lo, hi);
        if p.1.below(start) {
            (start, start)
        } else {
            (start, p.1)
        }
    } else {
        p
    }
}

impl Config {
    /// The low band after `sanitize`.
    pub open spec fn low_band(self) -> (Single, Single) {
        ordered_pair(self.band_low, single(ONE_BITS), single(LOW_CEILING_BITS))
    }

    /// The mid band after `sanitize`: in order, and starting no lower than
    /// the low band ends.
    pub open spec fn mid_band(self) -> (Single, Single) {
        raised_pair(
            ordered_pair(self.band_mid, single(ONE_BITS), single(MID_CEILING_BITS)),
            self.low_band().1,
            single(ONE_BITS),
            single(MID_CEILING_BITS),
        )
    }

    /// The high band after `sanitize`: in order, and starting no lower than
    /// the mid band ends.
    pub open spec fn high_band(self) -> (Single, Single) {
        raised_pair(
            ordered_pair(self.band_high, single(ONE_BITS), single(HIGH_CEILING_BITS)),
            self.mid_band().1,
            single(ONE_BITS),
            single(HIGH_CEILING_BITS),
        )
    }

    /// Whether `other` is this configuration with every setting brought into
    /// its range and the bands put in order.
    pub open spec fn sanitized_to(self, other: Config) -> bool {
        &&& other.volume == self.volume.clamped(single(ZERO_BITS), single(ONE_BITS))
        &&& other.alpha == self.alpha.clamped(
            single(ALPHA_MIN_BITS),
            single(ALPHA_MAX_BITS),
        )
        &&& other.enable_low == self.enable_low
        &&& other.enable_mid == self.enable_mid
        &&& other.enable_high == self.enable_high
        &&& other.band_low[0] == self.low_band().0
        &&& other.band_low[1] == self.low_band().1
        &&& other.band_mid[0] == self.mid_band().0
        &&& other.band_mid[1] == self.mid_band().1
        &&& other.band_high[0] == self.high_band().0
        &&& other.band_high[1] == self.high_band().1
        &&& other.band_volume_low == self.band_volume_low.clamped(
            single(ZERO_BITS),
            single(TEN_BITS),
        )
        &&& other.band_volume_mid == self.band_volume_mid.clamped(
            single(ZERO_BITS),
            single(TEN_BITS),
        )
        &&& other.band_volume_high == self.band_volume_high.clamped(
            single(ZERO_BITS),
            single(TEN_BITS),
        )
        &&& other.bass_boost == self.bass_boost.clamped(single(ZERO_BITS), single(TEN_BITS))
        &&& other.seed == capped(self.seed)
        &&& other.random == self.random
    }

    /// The smoothing factor that a buffer is synthesized with: that of the
    /// settings, restricted to `[0.9, 0.9999]`.
    pub open spec fn smoothing(self) -> Single {
        self.alpha.clamped(single(ALPHA_MIN_BITS), single(ALPHA_MAX_BITS))
    }

    /// Whether the bass gain is so small that the bass stage steps aside:
    /// its absolute value is below `1e-6`.
    pub open spec fn bass_bypassed(self) -> bool {
        self.bass_boost.absolute().below(single(BYPASS_BITS))
    }

    /// Whether every setting but the bands is in its range, or a
    /// not-a-number.
    pub open spec fn settings_in_range(self) -> bool {
        &&& self.volume.held_to(single(ZERO_BITS), single(ONE_BITS))
        &&& self.alpha.held_to(single(ALPHA_MIN_BITS), single(ALPHA_MAX_BITS))
        &&& self.band_volume_low.held_to(single(ZERO_BITS), single(TEN_BITS))
        &&& self.band_volume_mid.held_to(single(ZERO_BITS), single(TEN_BITS))
        &&& self.band_volume_high.held_to(single(ZERO_BITS), single(TEN_BITS))
        &&& self.bass_boost.held_to(single(ZERO_BITS), single(TEN_BITS))
        &&& self.seed <= SEED_MAX
    }

    /// Whether no band bound is a not-a-number.
    pub open spec fn bands_are_numbers(self) -> bool {
        &&& !self.band_low[0].nan()
        &&& !self.band_low[1].nan()
        &&& !self.band_mid[0].nan()
        &&& !self.band_mid[1].nan()
        &&& !self.band_high[0].nan()
        &&& !self.band_high[1].nan()
    }

    /// Whether the bands are within their ranges, each in order, and no band
    /// starts below the end of the one beneath it.
    pub open spec fn bands_in_order(self) -> bool {
        &&& self.band_low[0].within(single(ONE_BITS), single(LOW_CEILING_BITS))
        &&& self.band_low[1].within(single(ONE_BITS), single(LOW_CEILING_BITS))
        &&& self.band_mid[0].within(single(ONE_BITS), single(MID_CEILING_BITS))
        &&& self.band_mid[1].within(single(ONE_BITS), single(MID_CEILING_BITS))
        &&& self.band_high[0].within(single(ONE_BITS), single(HIGH_CEILING_BITS))
        &&& self.band_high[1].within(single(ONE_BITS), single(HIGH_CEILING_BITS))
        &&& self.band_low[0].rank() <= self.band_low[1].rank()
        &&& self.band_low[1].rank() <= self.band_mid[0].rank()
        &&& self.band_mid[0].rank() <= self.band_mid[1].rank()
        &&& self.band_mid[1].rank() <= self.band_high[0].rank()
        &&& self.band_high[0].rank() <= self.band_high[1].rank()
    }

    /// The settings that result when the control surface hands in `entered`:
    /// those of `entered`, but with the seed that was held before where
    /// `entered` asks for a random seed.
    pub open spec fn merged(self, entered: Config) -> Config {
        Config { seed: if entered.random { self.seed } else { entered.seed }, ..entered }
    }

    /// Takes over what the control surface holds and sanitizes it. The seed
    /// is taken over only where the surface asks for a fixed seed.
    pub fn absorb(&mut self, entered: &Config)
        ensures
            old(self).merged(*entered).sanitized_to(*final(self)),
            old(self).merged(*entered).bands_are_numbers() ==> final(self).bands_in_order(),
            final(self).settings_in_range(),
    {
        let kept = self.seed;
        *self = *entered;
        if entered.random {
            self.seed = kept;
        }
        self.sanitize();
    }

    /// Restricts every setting to its range and puts the bands in order.
    pub fn sanitize(&mut self)
        ensures
            old(self).sanitized_to(*final(self)),
            old(self).bands_are_numbers() ==> final(self).bands_in_order(),
            final(self).settings_in_range(),
            final(self).seed <= SEED_MAX,
    {
        let zero = Single::zero();
        let one = Single::one();
        let ten = Single::from_bits(TEN_BITS);
        let low_ceiling = Single::from_bits(LOW_CEILING_BITS);
        let mid_ceiling = Single::from_bits(MID_CEILING_BITS);
        let high_ceiling = Single::from_bits(HIGH_CEILING_BITS);

        self.volume = self.volume.clamp(zero, one);
        self.alpha = self.alpha.clamp(
            Single::from_bits(ALPHA_MIN_BITS),
            Single::from_bits(ALPHA_MAX_BITS),
        );

        clamp_pair(&mut self.band_low, one, low_ceiling);
        clamp_pair(&mut self.band_mid, one, mid_ceiling);
        clamp_pair(&mut self.band_high, one, high_ceiling);

        if self.band_low[1].gt(self.band_mid[0]) {
            self.band_mid[0] = self.band_low[1].clamp(one, mid_ceiling);
            if self.band_mid[0].gt(self.band_mid[1]) {
                self.band_mid[1] = self.band_mid[0];
            }
        }
        if self.band_mid[1].gt(self.band_high[0]) {
            self.band_high[0] = self.band_mid[1].clamp(one, high_ceiling);
            if self.band_high[0].gt(self.band_high[1]) {
                self.band_high[1] = self.band_high[0];
            }
        }

        self.band_volume_low = self.band_volume_low.clamp(zero, ten);
        self.band_volume_mid = self.band_volume_mid.clamp(zero, ten);
        self.band_volume_high = self.band_volume_high.clamp(zero, ten);
        self.bass_boost = self.bass_boost.clamp(zero, ten);

        if self.seed > SEED_MAX {
            self.seed = SEED_MAX;
        }
    }
}

/// Restricts both bounds of a band to `[lo, hi]` and swaps them where the
/// first is greater.
fn clamp_pair(p: &mut [Single; 2], lo: Single, hi: Single)
    requires
        !lo.nan(),
        !hi.nan(),
        lo.rank() <= hi.rank(),
    ensures
        final(p)[0] == ordered_pair(*old(p), lo, hi).0,
        final(p)[1] == ordered_pair(*old(p), lo, hi).1,
{
    let a = p[0].clamp(lo, hi);
    let b = p[1].clamp(lo, hi);
    if a.gt(b) {
        p[0] = b;
        p[1] = a;
    } else {
        p[0] = a;
        p[1] = b;
    }
}

/// Sanitized settings are in range and in order: every setting but the
/// bands is within its range or a not-a-number; and where no band bound is
/// a not-a-number, every bound is within its band's range, each band runs
/// from its lower to its upper bound, and no band starts below the end of
/// the one beneath it.
pub proof fn lemma_sanitized_in_range_and_order(before: Config, after: Config)
    requires
        before.sanitized_to(after),
    ensures
        after.settings_in_range(),
        before.bands_are_numbers() ==> after.bands_in_order(),
{
}

/// Sanitizing what is sanitized changes nothing.
pub proof fn lemma_sanitize_is_stable(before: Config, after: Config)
    requires
        before.sanitized_to(after),
    ensures
        after.sanitized_to(after),
{
}

impl Default for Config {
    /// Full volume, all bands on, smoothing `0.996`, bands `[10, 500]`,
    /// `[60, 1000]` and `[100, 10000]` Hz with gains `1.0`, `0.5` and `0.2`,
    /// a random seed, no bass gain.
    fn default() -> (r: Config)
        ensures
            r.volume.bits == ONE_BITS,
            r.alpha.bits == ALPHA_DEFAULT_BITS,
            r.enable_low && r.enable_mid && r.enable_high,
            r.band_low[0].bits == TEN_BITS,
            r.band_low[1].bits == FIVE_HUNDRED_BITS,
            r.band_mid[0].bits == SIXTY_BITS,
            r.band_mid[1].bits == LOW_CEILING_BITS,
            r.band_high[0].bits == HUNDRED_BITS,
            r.band_high[1].bits == HIGH_CEILING_BITS,
            r.band_volume_low.bits == ONE_BITS,
            r.band_volume_mid.bits == HALF_BITS,
            r.band_volume_high.bits == FIFTH_BITS,
            r.seed == 0,
            r.random,
            r.bass_boost.bits == ZERO_BITS,
    {
        Config {
            volume: Single::one(),
            alpha: Single::from_bits(ALPHA_DEFAULT_BITS),
            enable_low: true,
            enable_mid: true,
            enable_high: true,
            band_low: [Single::from_bits(TEN_BITS), Single::from_bits(FIVE_HUNDRED_BITS)],
            band_mid: [Single::from_bits(SIXTY_BITS), Single::from_bits(LOW_CEILING_BITS)],
            band_high: [Single::from_bits(HUNDRED_BITS), Single::from_bits(HIGH_CEILING_BITS)],
            band_volume_low: Single::one(),
            band_volume_mid: Single::from_bits(HALF_BITS),
            band_volume_high: Single::from_bits(FIFTH_BITS),
            seed: 0,
            random: true,
            bass_boost: Single::zero(),
        }
    }
}

} // verus!
