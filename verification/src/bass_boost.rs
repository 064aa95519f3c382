//! The bass-enhancement stage: a low shelf that steps aside at zero gain.

use vstd::prelude::*;
use crate::arithmetic::{
    constant, is_function, lemma_yields_one_value, value, Arithmetic, Formula, Term,
};
use crate::biquad::{angle, Biquad, Design};
use crate::single::{
    single, Single, FORTY_BITS, HUNDRED_BITS, NEG_TWO_BITS, ONE_BITS, PI_BITS, TEN_BITS, TWO_BITS,
    ZERO_BITS,
};

verus! {

/// Pattern of `1e-6`: a gain whose absolute value is below it counts as no gain.
pub const BYPASS_BITS: u32 = 0x3586_37bd;

/// The shelf's corner frequency, `100.0` Hz.
pub const CORNER_BITS: u32 = HUNDRED_BITS;

/// A low shelf with the gain it was last set to and the sample rate it was
/// made for.
#[derive(Clone, Copy, Debug, PartialEq, Eq, Structural)]
pub struct BassBoost {
    pub low_shelf: Biquad,
    pub gain_db: Single,
    pub sample_rate: Single,
}

/// The shelf's amplitude: `10` raised to `gain_db / 40`.
pub open spec fn shelf_amplitude(gain_db: Single) -> Formula {
    constant(TEN_BITS).raised(value(gain_db).over(constant(FORTY_BITS)))
}

/// The shelf's `beta`, `sqrt((a*a + 1) / s - (a - 1)^2)` for a slope `s`,
/// at the slope 1: `sqrt(2 * a)`. It is defined for a boost and for a cut.
pub open spec fn shelf_beta(gain_db: Single) -> Formula {
    constant(TWO_BITS).times(shelf_amplitude(gain_db)).root()
}

/// The low shelf with corner `freq` and gain `gain_db`. With `a` the
/// amplitude, `c = cos(omega)` and `e = beta * sin(omega)`:
/// `b0 = a * ((a+1) - (a-1)*c + e)`, `b1 = 2*a * ((a-1) - (a+1)*c)`,
/// `b2 = a * ((a+1) - (a-1)*c - e)`, `a0 = (a+1) + (a-1)*c + e`,
/// `a1 = -2 * ((a-1) + (a+1)*c)`, `a2 = (a+1) + (a-1)*c - e`.
pub open spec fn lowshelf(sample_rate: Single, freq: Single, gain_db: Single) -> Design {
    let a = shelf_amplitude(gain_db);
    let omega = angle(value(freq), sample_rate);
    let c = omega.cosine();
    let e = shelf_beta(gain_db).times(omega.sine());
    let up = a.plus(constant(ONE_BITS));
    let down = a.minus(constant(ONE_BITS));
    let falling = up.minus(down.times(c));
    let rising = up.plus(down.times(c));
    Design {
        b0: a.times(falling.plus(e)),
        b1: constant(TWO_BITS).times(a).times(down.minus(up.times(c))),
        b2: a.times(falling.minus(e)),
        a0: rising.plus(e),
        a1: constant(NEG_TWO_BITS).times(down.plus(up.times(c))),
        a2: rising.minus(e),
    }
}

/// Whether the coefficients of `shelf` are what `ops` yields for the low
/// shelf with corner `freq` and gain `gain_db`, each divided by the design's
/// `a0`.
pub open spec fn is_lowshelf<A: Arithmetic>(
    shelf: Biquad,
    ops: &A,
    sample_rate: Single,
    freq: Single,
    gain_db: Single,
) -> bool {
    let design = lowshelf(sample_rate, freq, gain_db);
    &&& shelf.normalized()
    &&& design.b0.over(design.a0).yields(ops, shelf.b0)
    &&& design.b1.over(design.a0).yields(ops, shelf.b1)
    &&& design.b2.over(design.a0).yields(ops, shelf.b2)
    &&& design.a1.over(design.a0).yields(ops, shelf.a1)
    &&& design.a2.over(design.a0).yields(ops, shelf.a2)
}

/// Low-shelf design for a second-order section.
pub trait BiquadExt {
    /// Sets the coefficients of a low shelf with corner `freq` and gain
    /// `gain_db`, slope 1, already divided through by `a0`.
    fn update_lowshelf<A: Arithmetic>(
        &mut self,
        ops: &A,
        sample_rate: Single,
        freq: Single,
        gain_db: Single,
    );
}

impl BiquadExt for Biquad {
    /// The history is kept, and `a0` is exactly `1.0` afterwards.
    fn update_lowshelf<A: Arithmetic>(
        &mut self,
        ops: &A,
        sample_rate: Single,
        freq: Single,
        gain_db: Single,
    )
        ensures
            is_lowshelf(*final(self), ops, sample_rate, freq, gain_db),
            final(self).same_history(*old(self)),
    {
        let one = Term::bits(ONE_BITS);
        let two = Term::bits(TWO_BITS);
        let a = Term::bits(TEN_BITS).raised(
            ops,
            Term::of(gain_db).over(ops, Term::bits(FORTY_BITS)),
        );
        let omega = two.times(ops, Term::bits(PI_BITS)).times(ops, Term::of(freq)).over(
            ops,
            Term::of(sample_rate),
        );
        let sin_w = omega.sine(ops);
        let cos_w = omega.cosine(ops);
        let beta = two.times(ops, a).root(ops);

        let up = a.plus(ops, one);
        let down = a.minus(ops, one);
        let edge = beta.times(ops, sin_w);
        let falling = up.minus(ops, down.times(ops, cos_w));
        let rising = up.plus(ops, down.times(ops, cos_w));

        let b0 = a.times(ops, falling.plus(ops, edge));
        let b1 = two.times(ops, a).times(ops, down.minus(ops, up.times(ops, cos_w)));
        let b2 = a.times(ops, falling.minus(ops, edge));
        let a0 = rising.plus(ops, edge);
        let a1 = Term::bits(NEG_TWO_BITS).times(ops, down.plus(ops, up.times(ops, cos_w)));
        let a2 = rising.minus(ops, edge);

        self.b0 = b0.over(ops, a0).value;
        self.b1 = b1.over(ops, a0).value;
        self.b2 = b2.over(ops, a0).value;
        self.a0 = Single::one();
        self.a1 = a1.over(ops, a0).value;
        self.a2 = a2.over(ops, a0).value;
    }
}

impl BassBoost {
    /// Whether the stage hands its input through untouched: the absolute
    /// value of the gain is below `1e-6`.
    pub open spec fn bypassed(self) -> bool {
        self.gain_db.absolute().below(single(BYPASS_BITS))
    }

    /// The stage after it took `input` and gave `output`: unchanged where
    /// it is bypassed, else with the shelf's history moved on.
    pub open spec fn advanced(self, input: Single, output: Single) -> BassBoost {
        if self.bypassed() {
            self
        } else {
            BassBoost { low_shelf: self.low_shelf.advanced(input, output), ..self }
        }
    }

    /// The stage's answer to `input`: the input itself where the stage is
    /// bypassed, else the shelf's response.
    pub open spec fn response(self, input: Single) -> Formula {
        if self.bypassed() {
            value(input)
        } else {
            self.low_shelf.response(input)
        }
    }

    /// A stage for `sample_rate` with gain `0.0`, its shelf at rest.
    pub fn new<A: Arithmetic>(ops: &A, sample_rate: Single) -> (r: BassBoost)
        ensures
            r.gain_db.bits == ZERO_BITS,
            r.sample_rate == sample_rate,
            is_lowshelf(r.low_shelf, ops, sample_rate, single(CORNER_BITS), r.gain_db),
            r.low_shelf.at_rest(),
            r.bypassed(),
    {
        let mut low_shelf = Biquad::new();
        low_shelf.update_lowshelf(ops, sample_rate, Single::from_bits(CORNER_BITS), Single::zero());
        BassBoost { low_shelf, gain_db: Single::zero(), sample_rate }
    }

    /// Sets the gain and designs the shelf for it, at the `100.0` Hz corner
    /// and the stage's own sample rate. The shelf's history is kept.
    pub fn set_boost<A: Arithmetic>(&mut self, ops: &A, gain_db: Single)
        ensures
            final(self).gain_db == gain_db,
            final(self).sample_rate == old(self).sample_rate,
            is_lowshelf(
                final(self).low_shelf,
                ops,
                old(self).sample_rate,
                single(CORNER_BITS),
                gain_db,
            ),
            final(self).low_shelf.same_history(old(self).low_shelf),
    {
        self.gain_db = gain_db;
        self.low_shelf.update_lowshelf(
            ops,
            self.sample_rate,
            Single::from_bits(CORNER_BITS),
            gain_db,
        );
    }

    /// Tells whether the stage is bypassed.
    pub fn is_bypassed(&self) -> (r: bool)
        ensures
            r == self.bypassed(),
    {
        self.gain_db.abs().lt(Single::from_bits(BYPASS_BITS))
    }

    /// Processes one sample. A bypassed stage returns the input itself and
    /// does not change; otherwise the shelf filters the sample.
    pub fn process<A: Arithmetic>(&mut self, ops: &A, input: Single) -> (out: Single)
        ensures
            old(self).response(input).yields(ops, out),
            *final(self) == old(self).advanced(input, out),
            old(self).bypassed() ==> out == input && *final(self) == *old(self),
    {
        if self.is_bypassed() {
            input
        } else {
            self.low_shelf.process(ops, input)
        }
    }
}

/// A gain of `0.0` or `-0.0` bypasses the stage, whatever the shelf holds:
/// the stage then reproduces every input and keeps its state.
pub proof fn lemma_zero_gain_bypasses(stage: BassBoost, input: Single)
    requires
        stage.gain_db.magnitude() == 0,
    ensures
        stage.bypassed(),
        stage.response(input) == value(input),
        stage.advanced(input, input) == stage,
{
}

/// Whether `ops` may take the stage through `inputs` one sample after the
/// other, giving `outputs` and leaving the stage as `after`.
pub open spec fn processes<A: Arithmetic>(
    stage: BassBoost,
    ops: &A,
    inputs: Seq<Single>,
    outputs: Seq<Single>,
    after: BassBoost,
) -> bool
    decreases inputs.len(),
{
    if inputs.len() == 0 {
        outputs.len() == 0 && after == stage
    } else {
        &&& outputs.len() == inputs.len()
        &&& stage.response(inputs[0]).yields(ops, outputs[0])
        &&& processes(
            stage.advanced(inputs[0], outputs[0]),
            ops,
            inputs.drop_first(),
            outputs.drop_first(),
            after,
        )
    }
}

/// A stage without gain reproduces every sequence of inputs sample for
/// sample and is afterwards what it was.
pub proof fn lemma_zero_gain_reproduces<A: Arithmetic>(
    stage: BassBoost,
    ops: &A,
    inputs: Seq<Single>,
    outputs: Seq<Single>,
    after: BassBoost,
)
    requires
        stage.gain_db.magnitude() == 0,
        processes(stage, ops, inputs, outputs, after),
    ensures
        outputs == inputs,
        after == stage,
    decreases inputs.len(),
{
    if inputs.len() > 0 {
        lemma_zero_gain_bypasses(stage, inputs[0]);
        lemma_zero_gain_reproduces(stage, ops, inputs.drop_first(), outputs.drop_first(), after);
        assert(inputs =~= seq![inputs[0]] + inputs.drop_first());
        assert(outputs =~= seq![outputs[0]] + outputs.drop_first());
    } else {
        assert(outputs =~= inputs);
    }
}

/// Under an arithmetic that is a function, corner and gain fix the
/// coefficients of a low shelf: two shelves for the same corner and gain
/// with the same history are the same section.
pub proof fn lemma_lowshelf_is_one_section<A: Arithmetic>(
    ops: &A,
    sample_rate: Single,
    freq: Single,
    gain_db: Single,
    first: Biquad,
    second: Biquad,
)
    requires
        is_function(ops),
        is_lowshelf(first, ops, sample_rate, freq, gain_db),
        is_lowshelf(second, ops, sample_rate, freq, gain_db),
        first.same_history(second),
    ensures
        first == second,
{
    let design = lowshelf(sample_rate, freq, gain_db);
    lemma_yields_one_value(ops, design.b0.over(design.a0), first.b0, second.b0);
    lemma_yields_one_value(ops, design.b1.over(design.a0), first.b1, second.b1);
    lemma_yields_one_value(ops, design.b2.over(design.a0), first.b2, second.b2);
    lemma_yields_one_value(ops, design.a1.over(design.a0), first.a1, second.a1);
    lemma_yields_one_value(ops, design.a2.over(design.a0), first.a2, second.a2);
}

} // verus!
