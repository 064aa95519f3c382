//! One audio channel: its three band filters and bass stage, its noise
//! integrator, and the step that turns one white sample into one output
//! sample.

use vstd::prelude::*;
use crate::arithmetic::{
    constant, is_function, lemma_yields_one_value, value, Arithmetic, Formula, Term,
};
use crate::bass_boost::{is_lowshelf, lemma_lowshelf_is_one_section, BassBoost, CORNER_BITS};
use crate::biquad::{lemma_bandpass_is_one_section, Biquad};
use crate::config::Config;
use crate::single::{Single, single, HALF_BITS, NEG_ONE_BITS, ONE_BITS, ZERO_BITS};

verus! {

/// The filters of one channel: a bandpass for each band and the bass stage
/// behind the low band.
#[derive(Clone, Copy, Debug, PartialEq, Eq, Structural)]
pub struct Stages {
    pub low: Biquad,
    pub mid: Biquad,
    pub high: Biquad,
    pub bass: BassBoost,
}

/// The three band samples of one channel for one frame.
#[derive(Clone, Copy, Debug, PartialEq, Eq, Structural)]
pub struct Bands {
    pub low: Single,
    pub mid: Single,
    pub high: Single,
}

/// A channel at work on a buffer: its filters and the last sample of its
/// noise integrator.
#[derive(Clone, Copy, Debug, PartialEq, Eq, Structural)]
pub struct Voice {
    pub stages: Stages,
    pub brown: Single,
}

/// What one channel keeps from buffer to buffer. `stages` is `None` until the
/// channel has synthesized its first buffer; `brown` is the last sample of
/// the noise integrator, `0.0` at the start.
#[derive(Clone, Copy, Debug, PartialEq, Eq, Structural)]
pub struct Channel {
    pub stages: Option<Stages>,
    pub brown: Single,
}

/// Whether a sample is fit for the output device: a number in `[-1, 1]`, or
/// a not-a-number that the arithmetic produced and no clamp can remove.
pub open spec fn clamped_sample(s: Single) -> bool {
    s.held_to(single(NEG_ONE_BITS), single(ONE_BITS))
}

/// A sample that is fit for the output device is finite unless it is a
/// not-a-number: the clamp lets no infinity through.
pub proof fn lemma_clamped_number_is_finite(s: Single)
    requires
        clamped_sample(s),
        !s.nan(),
    ensures
        s.finite(),
        single(NEG_ONE_BITS).rank() <= s.rank() <= single(ONE_BITS).rank(),
{
}

/// One step of the noise integrator: `(1 - alpha) * white + alpha * previous`.
pub open spec fn integrated(alpha: Single, white: Single, previous: Single) -> Formula {
    constant(ONE_BITS).minus(value(alpha)).times(value(white)).plus(
        value(alpha).times(value(previous)),
    )
}

/// The output sample of one channel: `((mid + high) * 0.5 + low) * volume`,
/// restricted to `[-1, 1]`.
pub open spec fn mixed(low: Single, mid: Single, high: Single, volume: Single) -> Formula {
    value(mid).plus(value(high)).times(constant(HALF_BITS)).plus(value(low)).times(
        value(volume),
    ).clamped(single(NEG_ONE_BITS), single(ONE_BITS))
}

/// What one band does with one sample `input` of brown noise. Switched on,
/// its filter answers the sample and moves on, and the band sample is the
/// answer times the band's gain. Switched off, the filter is not touched
/// and the band sample is exactly `0.0`, whatever the gain.
pub open spec fn band_step<A: Arithmetic>(
    ops: &A,
    enabled: bool,
    gain: Single,
    before: Biquad,
    after: Biquad,
    input: Single,
    out: Single,
) -> bool {
    if enabled {
        &&& before.response(input).yields(ops, after.y1)
        &&& after == before.advanced(input, after.y1)
        &&& value(after.y1).times(value(gain)).yields(ops, out)
    } else {
        &&& after == before
        &&& out.bits == ZERO_BITS
    }
}

/// A band that is switched off adds exactly `0.0` to the mix and leaves its
/// filter alone, whatever its gain: its step is the same under every gain.
pub proof fn lemma_disabled_band_ignores_gain<A: Arithmetic>(
    ops: &A,
    gain: Single,
    other_gain: Single,
    before: Biquad,
    after: Biquad,
    input: Single,
    out: Single,
)
    requires
        band_step(ops, false, gain, before, after, input, out),
    ensures
        out == single(ZERO_BITS),
        after == before,
        band_step(ops, false, other_gain, before, after, input, out),
{
}

/// What the bass stage does with one sample `low` of the low band. With the
/// low band switched on the stage answers the sample (a bypassed stage with
/// the sample itself, without changing). With the low band switched off the
/// stage is not touched and the result is exactly `0.0`.
pub open spec fn boost_step<A: Arithmetic>(
    ops: &A,
    enabled: bool,
    before: BassBoost,
    after: BassBoost,
    low: Single,
    out: Single,
) -> bool {
    if enabled {
        &&& before.response(low).yields(ops, out)
        &&& after == before.advanced(low, out)
    } else {
        &&& after == before
        &&& out.bits == ZERO_BITS
    }
}

/// One frame of one channel, with the band samples and the boosted low
/// sample that it went through: the integrator takes `white`; each band
/// filters the new brown sample; the bass stage takes the low band; the mix
/// of the three is the output sample.
pub open spec fn frame_through<A: Arithmetic>(
    ops: &A,
    cfg: Config,
    alpha: Single,
    before: Voice,
    white: Single,
    after: Voice,
    out: Single,
    bands: Bands,
    boosted: Single,
) -> bool {
    &&& integrated(alpha, white, before.brown).yields(ops, after.brown)
    &&& band_step(
        ops,
        cfg.enable_low,
        cfg.band_volume_low,
        before.stages.low,
        after.stages.low,
        after.brown,
        bands.low,
    )
    &&& band_step(
        ops,
        cfg.enable_mid,
        cfg.band_volume_mid,
        before.stages.mid,
        after.stages.mid,
        after.brown,
        bands.mid,
    )
    &&& band_step(
        ops,
        cfg.enable_high,
        cfg.band_volume_high,
        before.stages.high,
        after.stages.high,
        after.brown,
        bands.high,
    )
    &&& boost_step(ops, cfg.enable_low, before.stages.bass, after.stages.bass, bands.low, boosted)
    &&& mixed(boosted, bands.mid, bands.high, cfg.volume).yields(ops, out)
}

/// Whether one frame takes a channel from `before` to `after` and gives
/// `out` for the white sample `white`.
pub open spec fn frame_step<A: Arithmetic>(
    ops: &A,
    cfg: Config,
    alpha: Single,
    before: Voice,
    white: Single,
    after: Voice,
    out: Single,
) -> bool {
    exists|bands: Bands, boosted: Single| #[trigger]
        frame_through(ops, cfg, alpha, before, white, after, out, bands, boosted)
}

/// Computes one step of the noise integrator.
pub fn integrate<A: Arithmetic>(ops: &A, alpha: Single, white: Single, previous: Single) -> (r:
    Single)
    ensures
        integrated(alpha, white, previous).yields(ops, r),
{
    let a = Term::of(alpha);
    Term::bits(ONE_BITS).minus(ops, a).times(ops, Term::of(white)).plus(
        ops,
        a.times(ops, Term::of(previous)),
    ).value
}

/// Computes the output sample of one channel from its band samples.
pub fn mix<A: Arithmetic>(ops: &A, low: Single, mid: Single, high: Single, volume: Single) -> (out:
    Single)
    ensures
        mixed(low, mid, high, volume).yields(ops, out),
        clamped_sample(out),
{
    Term::of(mid).plus(ops, Term::of(high)).times(ops, Term::bits(HALF_BITS)).plus(
        ops,
        Term::of(low),
    ).times(ops, Term::of(volume)).clamped(
        ops,
        Single::from_bits(NEG_ONE_BITS),
        Single::one(),
    ).value
}

impl Stages {
    /// Whether every section has `a0` exactly `1.0`.
    pub open spec fn normalized(self) -> bool {
        &&& self.low.normalized()
        &&& self.mid.normalized()
        &&& self.high.normalized()
        &&& self.bass.low_shelf.normalized()
    }

    /// Whether every section's history is at rest.
    pub open spec fn at_rest(self) -> bool {
        &&& self.low.at_rest()
        &&& self.mid.at_rest()
        &&& self.high.at_rest()
        &&& self.bass.low_shelf.at_rest()
    }

    /// Whether two sets of filters have the same histories.
    pub open spec fn same_history(self, other: Stages) -> bool {
        &&& self.low.same_history(other.low)
        &&& self.mid.same_history(other.mid)
        &&& self.high.same_history(other.high)
        &&& self.bass.low_shelf.same_history(other.bass.low_shelf)
    }

    /// Whether two sets of filters have the same coefficients, bass gain
    /// and sample rate.
    pub open spec fn same_design(self, other: Stages) -> bool {
        &&& self.low.same_coefficients(other.low)
        &&& self.mid.same_coefficients(other.mid)
        &&& self.high.same_coefficients(other.high)
        &&& self.bass.low_shelf.same_coefficients(other.bass.low_shelf)
        &&& self.bass.gain_db == other.bass.gain_db
        &&& self.bass.sample_rate == other.bass.sample_rate
    }

    /// Whether the filters are designed for `cfg`: each bandpass for its
    /// band at `sample_rate`, the shelf for the bass gain at the sample rate
    /// of the bass stage.
    pub open spec fn designed_for<A: Arithmetic>(
        self,
        ops: &A,
        sample_rate: Single,
        cfg: Config,
    ) -> bool {
        &&& self.low.is_bandpass(ops, sample_rate, cfg.band_low[0], cfg.band_low[1])
        &&& self.mid.is_bandpass(ops, sample_rate, cfg.band_mid[0], cfg.band_mid[1])
        &&& self.high.is_bandpass(ops, sample_rate, cfg.band_high[0], cfg.band_high[1])
        &&& is_lowshelf(
            self.bass.low_shelf,
            ops,
            self.bass.sample_rate,
            single(CORNER_BITS),
            cfg.bass_boost,
        )
        &&& self.bass.gain_db == cfg.bass_boost
    }

    /// Identity filters at rest and a bass stage without gain.
    pub fn new<A: Arithmetic>(ops: &A, sample_rate: Single) -> (r: Stages)
        ensures
            r.low == Biquad::identity(),
            r.mid == Biquad::identity(),
            r.high == Biquad::identity(),
            r.bass.gain_db == single(ZERO_BITS),
            r.bass.sample_rate == sample_rate,
            is_lowshelf(r.bass.low_shelf, ops, sample_rate, single(CORNER_BITS), r.bass.gain_db),
            r.normalized(),
            r.at_rest(),
    {
        Stages {
            low: Biquad::new(),
            mid: Biquad::new(),
            high: Biquad::new(),
            bass: BassBoost::new(ops, sample_rate),
        }
    }

    /// Designs the three bandpasses for the bands of `cfg` and sets the bass
    /// gain of `cfg`. Histories are kept.
    pub fn configure<A: Arithmetic>(&mut self, ops: &A, sample_rate: Single, cfg: &Config)
        ensures
            final(self).designed_for(ops, sample_rate, *cfg),
            final(self).normalized(),
            final(self).same_history(*old(self)),
            final(self).bass.sample_rate == old(self).bass.sample_rate,
    {
        self.low.update_bandpass(ops, sample_rate, cfg.band_low[0], cfg.band_low[1]);
        self.mid.update_bandpass(ops, sample_rate, cfg.band_mid[0], cfg.band_mid[1]);
        self.high.update_bandpass(ops, sample_rate, cfg.band_high[0], cfg.band_high[1]);
        self.bass.set_boost(ops, cfg.bass_boost);
    }

    /// Runs one sample of brown noise through the three bandpasses, each from
    /// the same input, and scales each band by its gain. A band that is
    /// switched off yields exactly `0.0`, whatever its gain, and its filter is
    /// not run.
    pub fn bands<A: Arithmetic>(&mut self, ops: &A, cfg: &Config, brown: Single) -> (r: Bands)
        ensures
            band_step(
                ops,
                cfg.enable_low,
                cfg.band_volume_low,
                old(self).low,
                final(self).low,
                brown,
                r.low,
            ),
            band_step(
                ops,
                cfg.enable_mid,
                cfg.band_volume_mid,
                old(self).mid,
                final(self).mid,
                brown,
                r.mid,
            ),
            band_step(
                ops,
                cfg.enable_high,
                cfg.band_volume_high,
                old(self).high,
                final(self).high,
                brown,
                r.high,
            ),
            final(self).bass == old(self).bass,
            final(self).same_design(*old(self)),
    {
        let low = if cfg.enable_low {
            Term::of(self.low.process(ops, brown)).times(ops, Term::of(cfg.band_volume_low)).value
        } else {
            Single::zero()
        };
        let mid = if cfg.enable_mid {
            Term::of(self.mid.process(ops, brown)).times(ops, Term::of(cfg.band_volume_mid)).value
        } else {
            Single::zero()
        };
        let high = if cfg.enable_high {
            Term::of(self.high.process(ops, brown)).times(
                ops,
                Term::of(cfg.band_volume_high),
            ).value
        } else {
            Single::zero()
        };
        Bands { low, mid, high }
    }

    /// Sends the low band through the bass stage. With the low band switched
    /// off the result is exactly `0.0` and the stage is not run; with the
    /// stage bypassed the result is `low` itself.
    pub fn boost<A: Arithmetic>(&mut self, ops: &A, cfg: &Config, low: Single) -> (r: Single)
        ensures
            boost_step(ops, cfg.enable_low, old(self).bass, final(self).bass, low, r),
            final(self).low == old(self).low,
            final(self).mid == old(self).mid,
            final(self).high == old(self).high,
            final(self).same_design(*old(self)),
    {
        if cfg.enable_low {
            self.bass.process(ops, low)
        } else {
            Single::zero()
        }
    }
}

impl Voice {
    /// One output sample from one white sample: integrates the noise,
    /// filters it into bands, boosts the low band, mixes and clamps.
    pub fn frame<A: Arithmetic>(
        &mut self,
        ops: &A,
        cfg: &Config,
        alpha: Single,
        white: Single,
    ) -> (out: Single)
        ensures
            frame_step(ops, *cfg, alpha, *old(self), white, *final(self), out),
            clamped_sample(out),
            final(self).stages.same_design(old(self).stages),
            !cfg.enable_low ==> final(self).stages.low == old(self).stages.low,
            !cfg.enable_mid ==> final(self).stages.mid == old(self).stages.mid,
            !cfg.enable_high ==> final(self).stages.high == old(self).stages.high,
            !cfg.enable_low || old(self).stages.bass.bypassed() ==> final(self).stages.bass == old(
                self,
            ).stages.bass,
    {
        self.brown = integrate(ops, alpha, white, self.brown);
        let bands = self.stages.bands(ops, cfg, self.brown);
        let boosted = self.stages.boost(ops, cfg, bands.low);
        let out = mix(ops, boosted, bands.mid, bands.high, cfg.volume);
        assert(frame_through(ops, *cfg, alpha, *old(self), white, *self, out, bands, boosted));
        out
    }
}

impl Channel {
    /// Whether `woken` is this channel ready for a buffer under `cfg`: the
    /// filters designed for `cfg`, with the histories that the channel kept,
    /// or at rest and made for `sample_rate` where it had none; the
    /// integrator where it was.
    pub open spec fn wakes_to<A: Arithmetic>(
        self,
        ops: &A,
        sample_rate: Single,
        cfg: Config,
        woken: Voice,
    ) -> bool {
        &&& woken.brown == self.brown
        &&& woken.stages.designed_for(ops, sample_rate, cfg)
        &&& match self.stages {
            Some(s) => woken.stages.same_history(s) && woken.stages.bass.sample_rate
                == s.bass.sample_rate,
            None => woken.stages.at_rest() && woken.stages.bass.sample_rate == sample_rate,
        }
    }

    /// Whether a buffer synthesized from `cfg` left the filters alone that
    /// the switches rest: the filter of a band that is switched off has the
    /// history that it had (rest, where the channel had no filters yet), and
    /// so has the bass stage where the low band is off or the bass gain
    /// bypasses the stage.
    pub open spec fn idle_kept(self, cfg: Config, after: Channel) -> bool {
        &&& after.stages is Some
        &&& !cfg.enable_low ==> match self.stages {
            Some(s) => after.stages->0.low.same_history(s.low),
            None => after.stages->0.low.at_rest(),
        }
        &&& !cfg.enable_mid ==> match self.stages {
            Some(s) => after.stages->0.mid.same_history(s.mid),
            None => after.stages->0.mid.at_rest(),
        }
        &&& !cfg.enable_high ==> match self.stages {
            Some(s) => after.stages->0.high.same_history(s.high),
            None => after.stages->0.high.at_rest(),
        }
        &&& !cfg.enable_low || cfg.bass_bypassed() ==> match self.stages {
            Some(s) => after.stages->0.bass.low_shelf.same_history(s.bass.low_shelf),
            None => after.stages->0.bass.low_shelf.at_rest(),
        }
    }

    /// A channel that has not synthesized yet.
    pub fn new() -> (r: Channel)
        ensures
            r.stages is None,
            r.brown.bits == ZERO_BITS,
    {
        Channel { stages: None, brown: Single::zero() }
    }

    /// Readies the channel for a buffer: makes the filters on first use and
    /// designs them for `cfg`.
    pub fn wake<A: Arithmetic>(&self, ops: &A, sample_rate: Single, cfg: &Config) -> (r: Voice)
        ensures
            self.wakes_to(ops, sample_rate, *cfg, r),
            r.stages.normalized(),
    {
        let mut stages = match self.stages {
            Some(s) => s,
            None => Stages::new(ops, sample_rate),
        };
        stages.configure(ops, sample_rate, cfg);
        Voice { stages, brown: self.brown }
    }

    /// What the channel keeps of a voice when the buffer is done.
    pub fn keep(voice: Voice) -> (r: Channel)
        ensures
            r.stages == Some(voice.stages),
            r.brown == voice.brown,
    {
        Channel { stages: Some(voice.stages), brown: voice.brown }
    }
}

/// Whether frame `i` of a channel's course is one step of the channel: from
/// `voices[i]` to `voices[i + 1]`, giving `outs[i]` for `whites[i]`.
pub open spec fn frame_at<A: Arithmetic>(
    ops: &A,
    cfg: Config,
    voices: Seq<Voice>,
    whites: Seq<Single>,
    outs: Seq<Single>,
    i: int,
) -> bool {
    frame_step(ops, cfg, cfg.smoothing(), voices[i], whites[i], voices[i + 1], outs[i])
}

/// Whether `voices` is the course of a channel through a buffer that gave
/// the samples `outs` for the white samples `whites`: one step for each
/// frame, each from where the one before it ended.
pub open spec fn course<A: Arithmetic>(
    ops: &A,
    cfg: Config,
    voices: Seq<Voice>,
    whites: Seq<Single>,
    outs: Seq<Single>,
) -> bool {
    &&& voices.len() == outs.len() + 1
    &&& whites.len() == outs.len()
    &&& forall|i: int|
        0 <= i < outs.len() ==> #[trigger] frame_at(ops, cfg, voices, whites, outs, i)
}

/// Whether a channel went from `before` to `after` on the course `voices`:
/// it woke to the first voice and kept the last.
pub open spec fn channel_course<A: Arithmetic>(
    ops: &A,
    cfg: Config,
    sample_rate: Single,
    before: Channel,
    after: Channel,
    voices: Seq<Voice>,
    whites: Seq<Single>,
    outs: Seq<Single>,
) -> bool {
    &&& course(ops, cfg, voices, whites, outs)
    &&& before.wakes_to(ops, sample_rate, cfg, voices[0])
    &&& after.stages == Some(voices.last().stages)
    &&& after.brown == voices.last().brown
}

/// Whether shaping the white samples `whites` under `cfg` takes a channel
/// from `before` to `after` and gives the samples `outs`: the channel wakes
/// with its filters designed for `cfg`, and then goes through one frame for
/// each white sample, in order.
pub open spec fn channel_shaped<A: Arithmetic>(
    ops: &A,
    cfg: Config,
    sample_rate: Single,
    before: Channel,
    after: Channel,
    whites: Seq<Single>,
    outs: Seq<Single>,
) -> bool {
    exists|voices: Seq<Voice>| #[trigger]
        channel_course(ops, cfg, sample_rate, before, after, voices, whites, outs)
}

/// A course grows by one frame: a step from its last voice extends it.
pub proof fn lemma_course_grows<A: Arithmetic>(
    ops: &A,
    cfg: Config,
    voices: Seq<Voice>,
    whites: Seq<Single>,
    outs: Seq<Single>,
    next: Voice,
    white: Single,
    out: Single,
)
    requires
        course(ops, cfg, voices, whites, outs),
        frame_step(ops, cfg, cfg.smoothing(), voices.last(), white, next, out),
    ensures
        course(ops, cfg, voices.push(next), whites.push(white), outs.push(out)),
{
    let voices2 = voices.push(next);
    let whites2 = whites.push(white);
    let outs2 = outs.push(out);
    assert forall|i: int| 0 <= i < outs2.len() implies #[trigger] frame_at(
        ops,
        cfg,
        voices2,
        whites2,
        outs2,
        i,
    ) by {
        if i < outs.len() {
            assert(frame_at(ops, cfg, voices, whites, outs, i));
        }
    }
}

/// Under an arithmetic that is a function, a channel wakes to one voice.
pub proof fn lemma_wake_is_a_function<A: Arithmetic>(
    ops: &A,
    sample_rate: Single,
    cfg: Config,
    channel: Channel,
    first: Voice,
    second: Voice,
)
    requires
        is_function(ops),
        channel.wakes_to(ops, sample_rate, cfg, first),
        channel.wakes_to(ops, sample_rate, cfg, second),
    ensures
        first == second,
{
    let a = first.stages;
    let b = second.stages;
    lemma_bandpass_is_one_section(
        ops,
        sample_rate,
        cfg.band_low[0],
        cfg.band_low[1],
        a.low,
        b.low,
    );
    lemma_bandpass_is_one_section(
        ops,
        sample_rate,
        cfg.band_mid[0],
        cfg.band_mid[1],
        a.mid,
        b.mid,
    );
    lemma_bandpass_is_one_section(
        ops,
        sample_rate,
        cfg.band_high[0],
        cfg.band_high[1],
        a.high,
        b.high,
    );
    lemma_lowshelf_is_one_section(
        ops,
        a.bass.sample_rate,
        single(CORNER_BITS),
        cfg.bass_boost,
        a.bass.low_shelf,
        b.bass.low_shelf,
    );
}

/// Under an arithmetic that is a function, one frame is a function of the
/// voice before it, the settings and the white sample.
pub proof fn lemma_frame_is_a_function<A: Arithmetic>(
    ops: &A,
    cfg: Config,
    alpha: Single,
    before: Voice,
    white: Single,
    first: Voice,
    first_out: Single,
    second: Voice,
    second_out: Single,
)
    requires
        is_function(ops),
        frame_step(ops, cfg, alpha, before, white, first, first_out),
        frame_step(ops, cfg, alpha, before, white, second, second_out),
    ensures
        first == second,
        first_out == second_out,
{
    let (bands1, boosted1) = choose|bands: Bands, boosted: Single| #[trigger]
        frame_through(ops, cfg, alpha, before, white, first, first_out, bands, boosted);
    let (bands2, boosted2) = choose|bands: Bands, boosted: Single| #[trigger]
        frame_through(ops, cfg, alpha, before, white, second, second_out, bands, boosted);
    lemma_yields_one_value(ops, integrated(alpha, white, before.brown), first.brown, second.brown);
    let brown = first.brown;
    lemma_band_is_a_function(
        ops,
        cfg.enable_low,
        cfg.band_volume_low,
        before.stages.low,
        brown,
        first.stages.low,
        bands1.low,
        second.stages.low,
        bands2.low,
    );
    lemma_band_is_a_function(
        ops,
        cfg.enable_mid,
        cfg.band_volume_mid,
        before.stages.mid,
        brown,
        first.stages.mid,
        bands1.mid,
        second.stages.mid,
        bands2.mid,
    );
    lemma_band_is_a_function(
        ops,
        cfg.enable_high,
        cfg.band_volume_high,
        before.stages.high,
        brown,
        first.stages.high,
        bands1.high,
        second.stages.high,
        bands2.high,
    );
    if cfg.enable_low {
        lemma_yields_one_value(ops, before.stages.bass.response(bands1.low), boosted1, boosted2);
    }
    lemma_yields_one_value(
        ops,
        mixed(boosted1, bands1.mid, bands1.high, cfg.volume),
        first_out,
        second_out,
    );
}

/// Under an arithmetic that is a function, one band's step is a function of
/// the filter before it, the switch, the gain and the input.
pub proof fn lemma_band_is_a_function<A: Arithmetic>(
    ops: &A,
    enabled: bool,
    gain: Single,
    before: Biquad,
    input: Single,
    first: Biquad,
    first_out: Single,
    second: Biquad,
    second_out: Single,
)
    requires
        is_function(ops),
        band_step(ops, enabled, gain, before, first, input, first_out),
        band_step(ops, enabled, gain, before, second, input, second_out),
    ensures
        first == second,
        first_out == second_out,
{
    if enabled {
        lemma_yields_one_value(ops, before.response(input), first.y1, second.y1);
        lemma_yields_one_value(ops, value(first.y1).times(value(gain)), first_out, second_out);
    }
}

/// Under an arithmetic that is a function, two courses from the same voice
/// over the same white samples agree up to every frame `upto`.
pub proof fn lemma_courses_agree<A: Arithmetic>(
    ops: &A,
    cfg: Config,
    whites: Seq<Single>,
    first: Seq<Voice>,
    first_outs: Seq<Single>,
    second: Seq<Voice>,
    second_outs: Seq<Single>,
    upto: int,
)
    requires
        is_function(ops),
        course(ops, cfg, first, whites, first_outs),
        course(ops, cfg, second, whites, second_outs),
        first[0] == second[0],
        0 <= upto <= whites.len(),
    ensures
        first[upto] == second[upto],
        forall|i: int| 0 <= i < upto ==> first_outs[i] == second_outs[i],
        forall|i: int| 0 <= i <= upto ==> first[i] == second[i],
    decreases upto,
{
    if upto > 0 {
        lemma_courses_agree(ops, cfg, whites, first, first_outs, second, second_outs, upto - 1);
        let i = upto - 1;
        assert(frame_at(ops, cfg, first, whites, first_outs, i));
        assert(frame_at(ops, cfg, second, whites, second_outs, i));
        lemma_frame_is_a_function(
            ops,
            cfg,
            cfg.smoothing(),
            first[i],
            whites[i],
            first[i + 1],
            first_outs[i],
            second[i + 1],
            second_outs[i],
        );
    }
}

/// Under an arithmetic that is a function, shaping is a function of the
/// channel, the settings and the white samples: the samples and the channel
/// afterwards are fixed by them.
pub proof fn lemma_channel_shaping_is_a_function<A: Arithmetic>(
    ops: &A,
    cfg: Config,
    sample_rate: Single,
    before: Channel,
    whites: Seq<Single>,
    first: Channel,
    first_outs: Seq<Single>,
    second: Channel,
    second_outs: Seq<Single>,
)
    requires
        is_function(ops),
        channel_shaped(ops, cfg, sample_rate, before, first, whites, first_outs),
        channel_shaped(ops, cfg, sample_rate, before, second, whites, second_outs),
    ensures
        first == second,
        first_outs == second_outs,
{
    let voices1 = choose|voices: Seq<Voice>| #[trigger]
        channel_course(ops, cfg, sample_rate, before, first, voices, whites, first_outs);
    let voices2 = choose|voices: Seq<Voice>| #[trigger]
        channel_course(ops, cfg, sample_rate, before, second, voices, whites, second_outs);
    lemma_wake_is_a_function(ops, sample_rate, cfg, before, voices1[0], voices2[0]);
    lemma_courses_agree(
        ops,
        cfg,
        whites,
        voices1,
        first_outs,
        voices2,
        second_outs,
        whites.len() as int,
    );
    assert(first_outs =~= second_outs);
}

/// Whether `next` is a brown sample that the integrator may give after
/// `previous` for the white sample `white`.
pub open spec fn follows<A: Arithmetic>(
    ops: &A,
    alpha: Single,
    white: Single,
    previous: Single,
    next: Single,
) -> bool {
    integrated(alpha, white, previous).yields(ops, next)
}

/// Whether, under the white sample `level`, the integrator of `ops` keeps
/// the order of its states between `0.0` and `level`: from the greater
/// state it gives no less, and never a not-a-number.
pub open spec fn integrator_keeps_order<A: Arithmetic>(
    ops: &A,
    alpha: Single,
    level: Single,
) -> bool {
    forall|p: Single, q: Single, r: Single, s: Single|
        #![trigger follows(ops, alpha, level, p, r), follows(ops, alpha, level, q, s)]
        !p.nan() && !q.nan() && 0 <= p.rank() <= q.rank() <= level.rank() && follows(
            ops,
            alpha,
            level,
            p,
            r,
        ) && follows(ops, alpha, level, q, s) ==> !r.nan() && !s.nan() && r.rank() <= s.rank()
}

/// Whether the integrator of `ops` does not leave `level` upwards once it
/// is there, and does not fall below `0.0` from rest.
pub open spec fn integrator_keeps_bounds<A: Arithmetic>(
    ops: &A,
    alpha: Single,
    level: Single,
) -> bool {
    &&& exists|r: Single| #[trigger]
        follows(ops, alpha, level, level, r) && r.rank() <= level.rank()
    &&& forall|r: Single| #[trigger]
        follows(ops, alpha, level, single(ZERO_BITS), r) ==> 0 <= r.rank()
}

/// Whether `browns` is what the integrator goes through from `browns[0]`
/// while every white sample is `level`.
pub open spec fn constant_run<A: Arithmetic>(
    ops: &A,
    alpha: Single,
    level: Single,
    browns: Seq<Single>,
) -> bool {
    &&& browns.len() > 0
    &&& forall|k: int|
        0 <= k < browns.len() - 1 ==> #[trigger] follows_at(ops, alpha, level, browns, k)
}

/// Whether sample `k + 1` of a run follows sample `k`.
pub open spec fn follows_at<A: Arithmetic>(
    ops: &A,
    alpha: Single,
    level: Single,
    browns: Seq<Single>,
    k: int,
) -> bool {
    follows(ops, alpha, level, browns[k], browns[k + 1])
}

/// Under a constant white sample `level` the brown noise rises from rest
/// towards `level` and never passes it, for every arithmetic that keeps the
/// order and the bounds of the integrator: each brown sample is a number no
/// less than the one before it and no greater than `level`.
pub proof fn lemma_integrator_rises_without_overshoot<A: Arithmetic>(
    ops: &A,
    alpha: Single,
    level: Single,
    browns: Seq<Single>,
    k: int,
)
    requires
        !level.nan(),
        0 <= level.rank(),
        integrator_keeps_order(ops, alpha, level),
        integrator_keeps_bounds(ops, alpha, level),
        constant_run(ops, alpha, level, browns),
        browns[0] == single(ZERO_BITS),
        0 <= k < browns.len() - 1,
    ensures
        !browns[k].nan(),
        !browns[k + 1].nan(),
        0 <= browns[k].rank() <= browns[k + 1].rank() <= level.rank(),
    decreases k,
{
    let top = choose|r: Single| #[trigger]
        follows(ops, alpha, level, level, r) && r.rank() <= level.rank();
    assert(follows_at(ops, alpha, level, browns, k));
    if k > 0 {
        lemma_integrator_rises_without_overshoot(ops, alpha, level, browns, k - 1);
        assert(follows_at(ops, alpha, level, browns, k - 1));
        assert(follows(ops, alpha, level, browns[k - 1], browns[k]));
    }
    assert(follows(ops, alpha, level, browns[k], browns[k + 1]));
    assert(follows(ops, alpha, level, level, top));
}

} // verus!
