//! Single-precision values carried by their IEEE-754 bit pattern.
//!
//! A `Single` is the 32-bit pattern of a binary32 number: one sign bit, eight
//! exponent bits, twenty-three fraction bits. Everything that depends only on
//! the order of two values (comparison, clamping, absolute value, negation,
//! the test for not-a-number) is decided here on the bits and proved against a
//! small mathematical model. Rounding arithmetic is not modelled: it enters
//! the library through the `Arithmetic` trait.

use vstd::prelude::*;

verus! {

/// The sign bit of a pattern.
pub const SIGN_BIT: u32 = 0x8000_0000;

/// The pattern of positive infinity; every larger magnitude is not-a-number.
pub const INFINITY_BITS: u32 = 0x7f80_0000;

/// Pattern of `0.0`.
pub const ZERO_BITS: u32 = 0x0000_0000;

/// Pattern of `1.0`.
pub const ONE_BITS: u32 = 0x3f80_0000;

/// Pattern of `-1.0`.
pub const NEG_ONE_BITS: u32 = 0xbf80_0000;

/// Pattern of `2.0`.
pub const TWO_BITS: u32 = 0x4000_0000;

/// Pattern of `-2.0`.
pub const NEG_TWO_BITS: u32 = 0xc000_0000;

/// Pattern of `0.5`.
pub const HALF_BITS: u32 = 0x3f00_0000;

/// Pattern of `10.0`.
pub const TEN_BITS: u32 = 0x4120_0000;

/// Pattern of `40.0`.
pub const FORTY_BITS: u32 = 0x4220_0000;

/// Pattern of `100.0`.
pub const HUNDRED_BITS: u32 = 0x42c8_0000;

/// Pattern of the single-precision value nearest to pi.
pub const PI_BITS: u32 = 0x4049_0fdb;

/// A single-precision value, identified by its bit pattern.
///
/// `==` on this type is identity of patterns: it tells `0.0` from `-0.0` and
/// finds a not-a-number equal to itself. The numeric order is `below`.
#[derive(Clone, Copy, Debug, PartialEq, Eq, Structural)]
pub struct Single {
    pub bits: u32,
}

/// The value with the pattern `bits`.
pub open spec fn single(bits: u32) -> Single {
    Single { bits }
}

impl Single {
    /// The pattern without its sign bit.
    pub open spec fn magnitude(self) -> int {
        if self.bits >= SIGN_BIT {
            self.bits - SIGN_BIT
        } else {
            self.bits as int
        }
    }

    /// Whether the sign bit is set (true of `-0.0` and of some not-a-numbers too).
    pub open spec fn negative(self) -> bool {
        self.bits >= SIGN_BIT
    }

    /// Whether the pattern is a not-a-number.
    pub open spec fn nan(self) -> bool {
        self.magnitude() > INFINITY_BITS
    }

    /// Whether the pattern is a zero, a subnormal or a normal number.
    pub open spec fn finite(self) -> bool {
        self.magnitude() < INFINITY_BITS
    }

    /// The place of a value in the numeric order: among patterns that are not
    /// not-a-number, one value is less than another exactly when its rank is
    /// smaller, and the two zeros share rank 0.
    pub open spec fn rank(self) -> int {
        if self.negative() {
            -self.magnitude()
        } else {
            self.magnitude()
        }
    }

    /// The numeric `<`: false as soon as either side is a not-a-number.
    pub open spec fn below(self, other: Single) -> bool {
        !self.nan() && !other.nan() && self.rank() < other.rank()
    }

    /// Whether `lo <= self <= hi` numerically, with none of the three a not-a-number.
    pub open spec fn within(self, lo: Single, hi: Single) -> bool {
        !self.nan() && !lo.nan() && !hi.nan() && lo.rank() <= self.rank() <= hi.rank()
    }

    /// Whether the value is a number in `[lo, hi]` or a not-a-number: what is
    /// known of a value after it was restricted to `[lo, hi]`.
    pub open spec fn held_to(self, lo: Single, hi: Single) -> bool {
        self.nan() || self.within(lo, hi)
    }

    /// The value restricted to `[lo, hi]`: `lo` where it is below `lo`, `hi`
    /// where it is above `hi`, else itself. A not-a-number is neither, so it
    /// stays, and `-0.0` against a bound of `0.0` stays `-0.0`.
    pub open spec fn clamped(self, lo: Single, hi: Single) -> Single {
        if self.below(lo) {
            lo
        } else if hi.below(self) {
            hi
        } else {
            self
        }
    }

    /// The pattern with the sign bit cleared.
    pub open spec fn absolute(self) -> Single {
        Single { bits: self.magnitude() as u32 }
    }

    /// The pattern with the sign bit flipped.
    pub open spec fn negated(self) -> Single {
        if self.bits >= SIGN_BIT {
            Single { bits: (self.bits - SIGN_BIT) as u32 }
        } else {
            Single { bits: (self.bits + SIGN_BIT) as u32 }
        }
    }

    /// The value with the given pattern.
    pub fn from_bits(bits: u32) -> (r: Single)
        ensures
            r == single(bits),
    {
        Single { bits }
    }

    /// The pattern of the value.
    pub fn to_bits(self) -> (r: u32)
        ensures
            r == self.bits,
    {
        self.bits
    }

    /// `0.0`.
    pub fn zero() -> (r: Single)
        ensures
            r == single(ZERO_BITS),
    {
        Single { bits: ZERO_BITS }
    }

    /// `1.0`.
    pub fn one() -> (r: Single)
        ensures
            r == single(ONE_BITS),
    {
        Single { bits: ONE_BITS }
    }

    /// The pattern without its sign bit, as a machine integer.
    fn magnitude_bits(self) -> (m: u32)
        ensures
            m == self.magnitude(),
            m < SIGN_BIT,
    {
        if self.bits >= SIGN_BIT {
            self.bits - SIGN_BIT
        } else {
            self.bits
        }
    }

    /// Tells whether the value is a not-a-number.
    pub fn is_nan(self) -> (r: bool)
        ensures
            r == self.nan(),
    {
        self.magnitude_bits() > INFINITY_BITS
    }

    /// Tells whether the value is neither infinite nor a not-a-number.
    pub fn is_finite(self) -> (r: bool)
        ensures
            r == self.finite(),
    {
        self.magnitude_bits() < INFINITY_BITS
    }

    /// The numeric `self < other`.
    pub fn lt(self, other: Single) -> (r: bool)
        ensures
            r == self.below(other),
    {
        if self.is_nan() || other.is_nan() {
            return false;
        }
        let a: u32 = self.magnitude_bits();
        let b: u32 = other.magnitude_bits();
        if self.bits >= SIGN_BIT {
            if other.bits >= SIGN_BIT {
                b < a
            } else {
                a != 0 || b != 0
            }
        } else {
            if other.bits >= SIGN_BIT {
                false
            } else {
                a < b
            }
        }
    }

    /// The numeric `self > other`.
    pub fn gt(self, other: Single) -> (r: bool)
        ensures
            r == other.below(self),
    {
        other.lt(self)
    }

    /// Restricts the value to `[lo, hi]`. The bounds must be ordered numbers;
    /// a not-a-number passes through unchanged.
    pub fn clamp(self, lo: Single, hi: Single) -> (r: Single)
        requires
            !lo.nan(),
            !hi.nan(),
            lo.rank() <= hi.rank(),
        ensures
            r == self.clamped(lo, hi),
            r.held_to(lo, hi),
            self.nan() ==> r == self,
    {
        if self.lt(lo) {
            lo
        } else if self.gt(hi) {
            hi
        } else {
            self
        }
    }

    /// The absolute value: the same pattern with the sign bit cleared.
    pub fn abs(self) -> (r: Single)
        ensures
            r == self.absolute(),
            !r.negative(),
            r.magnitude() == self.magnitude(),
    {
        Single { bits: self.magnitude_bits() }
    }

    /// The negation: the same pattern with the sign bit flipped.
    pub fn neg(self) -> (r: Single)
        ensures
            r == self.negated(),
            r.magnitude() == self.magnitude(),
            r.negative() != self.negative(),
    {
        if self.bits >= SIGN_BIT {
            Single { bits: self.bits - SIGN_BIT }
        } else {
            Single { bits: self.bits + SIGN_BIT }
        }
    }
}

/// The numeric order is strict: nothing is below itself, no two values are
/// below each other, and what is below a value is below all that the value
/// is below.
pub proof fn lemma_below_is_a_strict_order(a: Single, b: Single, c: Single)
    ensures
        !a.below(a),
        a.below(b) ==> !b.below(a),
        a.below(b) && b.below(c) ==> a.below(c),
{
}

/// Restricting a value to a range a second time changes nothing.
pub proof fn lemma_clamped_is_stable(x: Single, lo: Single, hi: Single)
    requires
        !lo.nan(),
        !hi.nan(),
        lo.rank() <= hi.rank(),
    ensures
        x.clamped(lo, hi).clamped(lo, hi) == x.clamped(lo, hi),
        x.clamped(lo, hi).held_to(lo, hi),
        x.clamped(lo, hi).nan() == x.nan(),
        x.within(lo, hi) ==> x.clamped(lo, hi) == x,
{
}

} // verus!
