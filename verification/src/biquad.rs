//! A second-order recursive filter.

use vstd::prelude::*;
use crate::arithmetic::{
    constant, is_function, lemma_yields_one_value, value, Arithmetic, Formula, Term,
};
use crate::single::{single, Single, NEG_TWO_BITS, ONE_BITS, PI_BITS, TWO_BITS, ZERO_BITS};

verus! {

/// Coefficients and history of one second-order section.
///
/// After every update of the coefficients `a0` is exactly `1.0`. The history
/// holds the last two inputs (`x1` the newer) and the last two outputs (`y1`
/// the newer); it belongs to one channel and one band.
#[derive(Clone, Copy, Debug, PartialEq, Eq, Structural)]
pub struct Biquad {
    pub a0: Single,
    pub a1: Single,
    pub a2: Single,
    pub b0: Single,
    pub b1: Single,
    pub b2: Single,
    pub x1: Single,
    pub x2: Single,
    pub y1: Single,
    pub y2: Single,
}

/// The centre of a band: the geometric mean `sqrt(low_hz * high_hz)`.
pub open spec fn band_center(low_hz: Single, high_hz: Single) -> Formula {
    value(low_hz).times(value(high_hz)).root()
}

/// The angle that a frequency turns through in one sample:
/// `2 * pi * hz / sample_rate`.
pub open spec fn angle(hz: Formula, sample_rate: Single) -> Formula {
    constant(TWO_BITS).times(constant(PI_BITS)).times(hz).over(value(sample_rate))
}

/// The six coefficients of a filter design as it comes out of its
/// equations, before `a0` is divided out.
pub struct Design {
    pub b0: Formula,
    pub b1: Formula,
    pub b2: Formula,
    pub a0: Formula,
    pub a1: Formula,
    pub a2: Formula,
}

/// The bandpass's `alpha`: `sin(omega) / (2 * q)` with
/// `q = center / (high_hz - low_hz)`, the centre over the bandwidth.
pub open spec fn bandpass_alpha(sample_rate: Single, low_hz: Single, high_hz: Single) -> Formula {
    let center = band_center(low_hz, high_hz);
    let q = center.over(value(high_hz).minus(value(low_hz)));
    angle(center, sample_rate).sine().over(constant(TWO_BITS).times(q))
}

/// The constant-skirt-gain bandpass between `low_hz` and `high_hz`, whose
/// gain at the centre is `q`: `b0 = sin(omega) / 2`, `b1 = 0`,
/// `b2 = -sin(omega) / 2`, `a0 = 1 + alpha`, `a1 = -2 * cos(omega)`,
/// `a2 = 1 - alpha`.
pub open spec fn bandpass(sample_rate: Single, low_hz: Single, high_hz: Single) -> Design {
    let alpha = bandpass_alpha(sample_rate, low_hz, high_hz);
    let omega = angle(band_center(low_hz, high_hz), sample_rate);
    let skirt = omega.sine().over(constant(TWO_BITS));
    Design {
        b0: skirt,
        b1: constant(ZERO_BITS),
        b2: skirt.negated(),
        a0: constant(ONE_BITS).plus(alpha),
        a1: constant(NEG_TWO_BITS).times(omega.cosine()),
        a2: constant(ONE_BITS).minus(alpha),
    }
}

/// A coefficient divided through by `a0` the way `normalize` does it:
/// `raw * (1 / a0)`.
pub open spec fn normalized_by(raw: Formula, a0: Formula) -> Formula {
    raw.times(constant(ONE_BITS).over(a0))
}

impl Biquad {
    /// Whether the leading feedback coefficient is exactly `1.0`.
    pub open spec fn normalized(self) -> bool {
        self.a0.bits == ONE_BITS
    }

    /// Whether all four history cells hold `0.0`.
    pub open spec fn at_rest(self) -> bool {
        &&& self.x1.bits == ZERO_BITS
        &&& self.x2.bits == ZERO_BITS
        &&& self.y1.bits == ZERO_BITS
        &&& self.y2.bits == ZERO_BITS
    }

    /// Whether two sections have the same history.
    pub open spec fn same_history(self, other: Biquad) -> bool {
        &&& self.x1 == other.x1
        &&& self.x2 == other.x2
        &&& self.y1 == other.y1
        &&& self.y2 == other.y2
    }

    /// Whether two sections have the same coefficients.
    pub open spec fn same_coefficients(self, other: Biquad) -> bool {
        &&& self.a0 == other.a0
        &&& self.a1 == other.a1
        &&& self.a2 == other.a2
        &&& self.b0 == other.b0
        &&& self.b1 == other.b1
        &&& self.b2 == other.b2
    }

    /// The section after it took `input` and gave `output`: the history moves
    /// on by one sample, the coefficients stay.
    pub open spec fn advanced(self, input: Single, output: Single) -> Biquad {
        Biquad { x1: input, x2: self.x1, y1: output, y2: self.y1, ..self }
    }

    /// The section's answer to `input`, the difference equation
    /// `b0*input + b1*x1 + b2*x2 - a1*y1 - a2*y2`, taken from left to right.
    pub open spec fn response(self, input: Single) -> Formula {
        value(self.b0).times(value(input)).plus(value(self.b1).times(value(self.x1))).plus(
            value(self.b2).times(value(self.x2)),
        ).minus(value(self.a1).times(value(self.y1))).minus(value(self.a2).times(value(self.y2)))
    }

    /// Whether the coefficients are what `ops` yields for the bandpass
    /// between `low_hz` and `high_hz`, normalized.
    pub open spec fn is_bandpass<A: Arithmetic>(
        self,
        ops: &A,
        sample_rate: Single,
        low_hz: Single,
        high_hz: Single,
    ) -> bool {
        let design = bandpass(sample_rate, low_hz, high_hz);
        &&& self.normalized()
        &&& normalized_by(design.b0, design.a0).yields(ops, self.b0)
        &&& normalized_by(design.b1, design.a0).yields(ops, self.b1)
        &&& normalized_by(design.b2, design.a0).yields(ops, self.b2)
        &&& normalized_by(design.a1, design.a0).yields(ops, self.a1)
        &&& normalized_by(design.a2, design.a0).yields(ops, self.a2)
    }

    /// Whether `ops` yields the coefficients of `after` for those of `self`
    /// divided through by `self.a0`.
    pub open spec fn normalizes_to<A: Arithmetic>(self, ops: &A, after: Biquad) -> bool {
        &&& after.normalized()
        &&& normalized_by(value(self.b0), value(self.a0)).yields(ops, after.b0)
        &&& normalized_by(value(self.b1), value(self.a0)).yields(ops, after.b1)
        &&& normalized_by(value(self.b2), value(self.a0)).yields(ops, after.b2)
        &&& normalized_by(value(self.a1), value(self.a0)).yields(ops, after.a1)
        &&& normalized_by(value(self.a2), value(self.a0)).yields(ops, after.a2)
    }

    /// The identity section: `b0` and `a0` are `1.0`, every other coefficient
    /// and the whole history `0.0`, so that the output equals the input.
    pub open spec fn identity() -> Biquad {
        let zero = single(ZERO_BITS);
        let one = single(ONE_BITS);
        Biquad {
            a0: one,
            a1: zero,
            a2: zero,
            b0: one,
            b1: zero,
            b2: zero,
            x1: zero,
            x2: zero,
            y1: zero,
            y2: zero,
        }
    }

    /// The identity section, its history at rest.
    pub fn new() -> (r: Biquad)
        ensures
            r == Biquad::identity(),
            r.normalized(),
            r.at_rest(),
    {
        let zero = Single::zero();
        let one = Single::one();
        Biquad {
            a0: one,
            a1: zero,
            a2: zero,
            b0: one,
            b1: zero,
            b2: zero,
            x1: zero,
            x2: zero,
            y1: zero,
            y2: zero,
        }
    }

    /// Sets the coefficients of a constant-skirt-gain bandpass between
    /// `low_hz` and `high_hz`, centred at their geometric mean, and
    /// normalizes them. The history is kept.
    ///
    /// The bounds are meant to be positive with `low_hz` below `high_hz`;
    /// other bounds are not refused, they give whatever the arithmetic gives.
    pub fn update_bandpass<A: Arithmetic>(
        &mut self,
        ops: &A,
        sample_rate: Single,
        low_hz: Single,
        high_hz: Single,
    )
        ensures
            final(self).is_bandpass(ops, sample_rate, low_hz, high_hz),
            final(self).same_history(*old(self)),
    {
        let two = Term::bits(TWO_BITS);
        let one = Term::bits(ONE_BITS);
        let low = Term::of(low_hz);
        let high = Term::of(high_hz);
        let center = low.times(ops, high).root(ops);
        let omega = two.times(ops, Term::bits(PI_BITS)).times(ops, center).over(
            ops,
            Term::of(sample_rate),
        );
        let sin_w = omega.sine(ops);
        let alpha = sin_w.over(ops, two.times(ops, center.over(ops, high.minus(ops, low))));
        let cos_w = omega.cosine(ops);

        let b0 = sin_w.over(ops, two);
        let b1 = Term::bits(ZERO_BITS);
        let b2 = b0.negated(ops);
        let a0 = one.plus(ops, alpha);
        let a1 = Term::bits(NEG_TWO_BITS).times(ops, cos_w);
        let a2 = one.minus(ops, alpha);

        let inv = one.over(ops, a0);
        self.b0 = b0.times(ops, inv).value;
        self.b1 = b1.times(ops, inv).value;
        self.b2 = b2.times(ops, inv).value;
        self.a1 = a1.times(ops, inv).value;
        self.a2 = a2.times(ops, inv).value;
        self.a0 = Single::one();
    }

    /// Divides the coefficients through by `a0` and sets `a0` to exactly
    /// `1.0`. The history is kept.
    pub fn normalize<A: Arithmetic>(&mut self, ops: &A)
        ensures
            old(self).normalizes_to(ops, *final(self)),
            final(self).same_history(*old(self)),
    {
        let inv = Term::bits(ONE_BITS).over(ops, Term::of(self.a0));
        self.b0 = Term::of(self.b0).times(ops, inv).value;
        self.b1 = Term::of(self.b1).times(ops, inv).value;
        self.b2 = Term::of(self.b2).times(ops, inv).value;
        self.a1 = Term::of(self.a1).times(ops, inv).value;
        self.a2 = Term::of(self.a2).times(ops, inv).value;
        self.a0 = Single::one();
    }

    /// Filters one sample: evaluates the difference equation and moves the
    /// history on.
    pub fn process<A: Arithmetic>(&mut self, ops: &A, input: Single) -> (out: Single)
        ensures
            old(self).response(input).yields(ops, out),
            *final(self) == old(self).advanced(input, out),
            final(self).same_coefficients(*old(self)),
            old(self).normalized() ==> final(self).normalized(),
    {
        let feed = Term::of(self.b0).times(ops, Term::of(input)).plus(
            ops,
            Term::of(self.b1).times(ops, Term::of(self.x1)),
        ).plus(ops, Term::of(self.b2).times(ops, Term::of(self.x2)));
        let out = feed.minus(ops, Term::of(self.a1).times(ops, Term::of(self.y1))).minus(
            ops,
            Term::of(self.a2).times(ops, Term::of(self.y2)),
        );
        self.x2 = self.x1;
        self.x1 = input;
        self.y2 = self.y1;
        self.y1 = out.value;
        out.value
    }
}

/// A bandpass has `a0` exactly `1.0`, and filtering a sample leaves it the
/// bandpass that it was, whatever its bounds are.
pub proof fn lemma_bandpass_stays_normalized<A: Arithmetic>(
    section: Biquad,
    ops: &A,
    sample_rate: Single,
    low_hz: Single,
    high_hz: Single,
    input: Single,
    output: Single,
)
    requires
        section.is_bandpass(ops, sample_rate, low_hz, high_hz),
    ensures
        section.a0 == single(ONE_BITS),
        section.advanced(input, output).a0 == single(ONE_BITS),
        section.advanced(input, output).is_bandpass(ops, sample_rate, low_hz, high_hz),
{
}

/// Under an arithmetic that is a function, the bounds of a bandpass fix its
/// coefficients: two bandpasses for the same bounds with the same history
/// are the same section.
pub proof fn lemma_bandpass_is_one_section<A: Arithmetic>(
    ops: &A,
    sample_rate: Single,
    low_hz: Single,
    high_hz: Single,
    first: Biquad,
    second: Biquad,
)
    requires
        is_function(ops),
        first.is_bandpass(ops, sample_rate, low_hz, high_hz),
        second.is_bandpass(ops, sample_rate, low_hz, high_hz),
        first.same_history(second),
    ensures
        first == second,
{
    let design = bandpass(sample_rate, low_hz, high_hz);
    lemma_yields_one_value(ops, normalized_by(design.b0, design.a0), first.b0, second.b0);
    lemma_yields_one_value(ops, normalized_by(design.b1, design.a0), first.b1, second.b1);
    lemma_yields_one_value(ops, normalized_by(design.b2, design.a0), first.b2, second.b2);
    lemma_yields_one_value(ops, normalized_by(design.a1, design.a0), first.a1, second.a1);
    lemma_yields_one_value(ops, normalized_by(design.a2, design.a0), first.a2, second.a2);
}

/// Two samples of silence clear the input half of the history, whatever
/// the section gave for them.
pub proof fn lemma_silence_clears_the_inputs(section: Biquad, first: Single, second: Single)
    ensures
        ({
            let zero = single(ZERO_BITS);
            let after = section.advanced(zero, first).advanced(zero, second);
            &&& after.x1 == zero
            &&& after.x2 == zero
            &&& after.y1 == second
            &&& after.y2 == first
            &&& after.same_coefficients(section)
        }),
{
}

} // verus!
