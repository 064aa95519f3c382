//! The streaming synthesis engine: per-channel state, the mute switch and the
//! routine that fills one interleaved stereo buffer.

use std::sync::atomic::AtomicBool;
use std::sync::atomic::Ordering;
use std::sync::Arc;
use vstd::prelude::*;
use crate::arithmetic::{is_function, Arithmetic};
use crate::channel::{
    channel_course, channel_shaped, clamped_sample, course, lemma_channel_shaping_is_a_function,
    lemma_course_grows, Channel, Voice,
};
use crate::config::{Config, ALPHA_MAX_BITS, ALPHA_MIN_BITS};
use crate::single::{Single, single, ZERO_BITS};

verus! {

/// Samples of one frame: the stream is stereo, left before right.
pub const CHANNELS: usize = 2;

/// Frames per second of the output stream.
pub const SAMPLE_RATE: usize = 48000;

/// Pattern of `48000.0`, the sample rate that the filters are designed for.
pub const SAMPLE_RATE_BITS: u32 = 0x473b_8000;

/// Frames that the output device asks for at a time.
pub const BUFFER_FRAMES: usize = 1024;

/// A source of white noise: each call yields the next sample, meant to be
/// uniform in `[-1, 1)`. The engine does not rely on that range.
pub trait NoiseSource {
    fn next_white(&mut self) -> Single;
}

/// The shared settings. The engine takes one snapshot for each buffer that
/// it synthesizes and reads nothing else of them.
pub trait ConfigSource {
    fn snapshot(&self) -> Config;
}

/// The mute state after a toggle.
pub open spec fn toggled(muted: bool) -> bool {
    !muted
}

/// Toggling twice gives the state back.
pub proof fn lemma_toggle_twice_restores(muted: bool)
    ensures
        toggled(toggled(muted)) == muted,
        toggled(muted) != muted,
{
}

/// Computes the state that follows `previous` under a toggle.
pub fn flip(previous: bool) -> (now: bool)
    ensures
        now == toggled(previous),
{
    !previous
}

/// A mute switch shared between the control surface and the audio callback.
/// All clones of a controller act on the same flag.
#[derive(Clone)]
pub struct MuteController {
    muted: Arc<AtomicBool>,
}

impl MuteController {
    /// Whether `previous` is a state that one atomic exclusive-or of the
    /// flag with `true` may replace and return.
    pub closed spec fn replaced(&self, previous: bool) -> bool {
        call_ensures(AtomicBool::fetch_xor, (&*self.muted, true, Ordering::Relaxed), previous)
    }

    /// Whether `state` is a state that one atomic load of the flag may find.
    pub closed spec fn found(&self, state: bool) -> bool {
        call_ensures(AtomicBool::load, (&*self.muted, Ordering::Relaxed), state)
    }

    /// Whether the flag is one that making an atomic flag from `state` may
    /// give.
    pub closed spec fn made_from(&self, state: bool) -> bool {
        call_ensures(AtomicBool::new, (state,), *self.muted)
    }

    /// A fresh switch, not muted: its flag is made from `false`.
    pub fn new() -> (r: MuteController)
        ensures
            r.made_from(false),
    {
        MuteController { muted: Arc::new(AtomicBool::new(false)) }
    }

    /// Flips the flag in one atomic step and returns the new state, which is
    /// `toggled` of the state that the step replaced.
    pub fn toggle(&self) -> (now: bool)
        ensures
            self.replaced(toggled(now)),
    {
        let previous = self.muted.fetch_xor(true, Ordering::Relaxed);
        flip(previous)
    }

    /// Reads the flag.
    pub fn is_muted(&self) -> (muted: bool)
        ensures
            self.found(muted),
    {
        self.muted.load(Ordering::Relaxed)
    }
}

/// The engine behind one stereo output stream.
#[derive(Clone, Copy, Debug, PartialEq, Eq, Structural)]
pub struct Synth {
    pub left: Channel,
    pub right: Channel,
    pub sample_rate: Single,
}

/// Whether a buffer holds whole frames: left and right sample of each.
pub open spec fn whole_frames(buffer: Seq<Single>) -> bool {
    buffer.len() % (CHANNELS as nat) == 0
}

/// The samples of one channel (0 the left, 1 the right) in an interleaved
/// buffer, in order.
pub open spec fn channel_samples(buffer: Seq<Single>, channel: int) -> Seq<Single> {
    Seq::new(buffer.len() / (CHANNELS as nat), |i: int| buffer[CHANNELS * i + channel])
}

/// Whether every sample of a buffer is exactly `0.0`.
pub open spec fn silent(buffer: Seq<Single>) -> bool {
    forall|i: int| 0 <= i < buffer.len() ==> #[trigger] buffer[i] == single(ZERO_BITS)
}

/// Whether every sample of a buffer is fit for the output device.
pub open spec fn all_clamped(buffer: Seq<Single>) -> bool {
    forall|i: int| 0 <= i < buffer.len() ==> clamped_sample(#[trigger] buffer[i])
}

/// Fills the buffer with silence.
pub fn silence(buffer: &mut [Single])
    ensures
        final(buffer)@.len() == old(buffer)@.len(),
        silent(final(buffer)@),
{
    let n: usize = buffer.len();
    let mut i: usize = 0;
    while i < n
        invariant
            n == buffer@.len(),
            buffer@.len() == old(buffer)@.len(),
            i <= n,
            forall|k: int| 0 <= k < i ==> (#[trigger] buffer@[k]).bits == ZERO_BITS,
        decreases n - i,
    {
        buffer[i] = Single::zero();
        i += 1;
    }
}

impl Synth {
    /// Whether both channels have their filters, every section with `a0`
    /// exactly `1.0`.
    pub open spec fn active(self) -> bool {
        &&& self.left.stages matches Some(s) && s.normalized()
        &&& self.right.stages matches Some(s) && s.normalized()
    }

    /// Whether the filters that the channels have were made for the engine's
    /// sample rate.
    pub open spec fn coherent(self) -> bool {
        &&& self.left.stages matches Some(s) ==> s.bass.sample_rate == self.sample_rate
        &&& self.right.stages matches Some(s) ==> s.bass.sample_rate == self.sample_rate
    }

    /// Whether shaping the interleaved white samples `whites` under `cfg`
    /// takes the engine from `before` to `after` and gives the interleaved
    /// samples `samples`: each channel is shaped from its own white samples
    /// to its own samples, filters that the switches rest are left alone,
    /// and both channels end with normalized filters.
    pub open spec fn shaped<A: Arithmetic>(
        ops: &A,
        cfg: Config,
        before: Synth,
        after: Synth,
        whites: Seq<Single>,
        samples: Seq<Single>,
    ) -> bool {
        &&& whites.len() == samples.len()
        &&& channel_shaped(
            ops,
            cfg,
            before.sample_rate,
            before.left,
            after.left,
            channel_samples(whites, 0),
            channel_samples(samples, 0),
        )
        &&& channel_shaped(
            ops,
            cfg,
            before.sample_rate,
            before.right,
            after.right,
            channel_samples(whites, 1),
            channel_samples(samples, 1),
        )
        &&& before.left.idle_kept(cfg, after.left)
        &&& before.right.idle_kept(cfg, after.right)
        &&& after.active()
        &&& after.sample_rate == before.sample_rate
        &&& before.coherent() ==> after.coherent()
    }

    /// Whether synthesizing a buffer from `cfg` takes the engine from
    /// `before` to `after` and fills the buffer with `samples`: the samples
    /// are shaped from some white samples, as many as there are samples.
    pub open spec fn rendered<A: Arithmetic>(
        ops: &A,
        cfg: Config,
        before: Synth,
        after: Synth,
        samples: Seq<Single>,
    ) -> bool {
        exists|whites: Seq<Single>| #[trigger]
            Synth::shaped(ops, cfg, before, after, whites, samples)
    }

    /// Whether `cfg` is a snapshot that `shared` may give, and synthesizing
    /// a buffer from it takes the engine from `before` to `after` and fills
    /// the buffer with `samples`.
    pub open spec fn rendered_from<A: Arithmetic, C: ConfigSource>(
        shared: &C,
        ops: &A,
        cfg: Config,
        before: Synth,
        after: Synth,
        samples: Seq<Single>,
    ) -> bool {
        &&& call_ensures(C::snapshot, (shared,), cfg)
        &&& Synth::rendered(ops, cfg, before, after, samples)
    }

    /// An engine for `sample_rate` whose channels have not synthesized yet.
    pub fn new(sample_rate: Single) -> (r: Synth)
        ensures
            r.coherent(),
            r.sample_rate == sample_rate,
            r.left.stages is None,
            r.right.stages is None,
            r.left.brown.bits == ZERO_BITS,
            r.right.brown.bits == ZERO_BITS,
    {
        Synth { left: Channel::new(), right: Channel::new(), sample_rate }
    }

    /// Turns a buffer of white samples into output samples, in place. The
    /// buffer holds whole frames, the white sample of the left channel
    /// before that of the right: both channels wake, and each frame's two
    /// white samples give way to its two output samples.
    pub fn shape<A: Arithmetic>(&mut self, cfg: &Config, ops: &A, buffer: &mut [Single])
        requires
            whole_frames(old(buffer)@),
        ensures
            final(buffer)@.len() == old(buffer)@.len(),
            all_clamped(final(buffer)@),
            Synth::shaped(ops, *cfg, *old(self), *final(self), old(buffer)@, final(buffer)@),
    {
        let alpha = cfg.alpha.clamp(
            Single::from_bits(ALPHA_MIN_BITS),
            Single::from_bits(ALPHA_MAX_BITS),
        );
        let mut left = self.left.wake(ops, self.sample_rate, cfg);
        let mut right = self.right.wake(ops, self.sample_rate, cfg);
        let ghost left0 = left;
        let ghost right0 = right;
        let ghost mut voices_l: Seq<Voice> = seq![left];
        let ghost mut voices_r: Seq<Voice> = seq![right];
        let ghost mut whites_l: Seq<Single> = Seq::empty();
        let ghost mut whites_r: Seq<Single> = Seq::empty();
        let ghost mut outs_l: Seq<Single> = Seq::empty();
        let ghost mut outs_r: Seq<Single> = Seq::empty();

        let n: usize = buffer.len();
        let mut i: usize = 0;
        while i < n
            invariant
                n == buffer@.len(),
                buffer@.len() == old(buffer)@.len(),
                n % CHANNELS == 0,
                i % CHANNELS == 0,
                i <= n,
                alpha == cfg.smoothing(),
                forall|k: int| 0 <= k < i ==> clamped_sample(#[trigger] buffer@[k]),
                forall|k: int| i <= k < n ==> #[trigger] buffer@[k] == old(buffer)@[k],
                course(ops, *cfg, voices_l, whites_l, outs_l),
                course(ops, *cfg, voices_r, whites_r, outs_r),
                outs_l.len() == i / 2,
                outs_r.len() == i / 2,
                forall|k: int| 0 <= k < outs_l.len() ==> #[trigger] outs_l[k] == buffer@[2 * k],
                forall|k: int| 0 <= k < outs_r.len() ==> #[trigger] outs_r[k] == buffer@[2 * k + 1],
                forall|k: int|
                    0 <= k < whites_l.len() ==> #[trigger] whites_l[k] == old(buffer)@[2 * k],
                forall|k: int|
                    0 <= k < whites_r.len() ==> #[trigger] whites_r[k] == old(buffer)@[2 * k + 1],
                voices_l[0] == left0,
                voices_r[0] == right0,
                voices_l.last() == left,
                voices_r.last() == right,
                left.stages.normalized(),
                right.stages.normalized(),
                left.stages.same_design(left0.stages),
                right.stages.same_design(right0.stages),
                left0.stages.bass.gain_db == cfg.bass_boost,
                right0.stages.bass.gain_db == cfg.bass_boost,
                !cfg.enable_low ==> left.stages.low == left0.stages.low && right.stages.low
                    == right0.stages.low,
                !cfg.enable_mid ==> left.stages.mid == left0.stages.mid && right.stages.mid
                    == right0.stages.mid,
                !cfg.enable_high ==> left.stages.high == left0.stages.high && right.stages.high
                    == right0.stages.high,
                !cfg.enable_low || cfg.bass_bypassed() ==> left.stages.bass == left0.stages.bass
                    && right.stages.bass == right0.stages.bass,
            decreases n - i,
        {
            let white_l = buffer[i];
            let white_r = buffer[i + 1];
            let out_l = left.frame(ops, cfg, alpha, white_l);
            let out_r = right.frame(ops, cfg, alpha, white_r);
            buffer[i] = out_l;
            buffer[i + 1] = out_r;
            proof {
                lemma_course_grows(ops, *cfg, voices_l, whites_l, outs_l, left, white_l, out_l);
                lemma_course_grows(ops, *cfg, voices_r, whites_r, outs_r, right, white_r, out_r);
                voices_l = voices_l.push(left);
                voices_r = voices_r.push(right);
                whites_l = whites_l.push(white_l);
                whites_r = whites_r.push(white_r);
                outs_l = outs_l.push(out_l);
                outs_r = outs_r.push(out_r);
            }
            i += CHANNELS;
        }

        proof {
            assert(outs_l =~= channel_samples(buffer@, 0));
            assert(outs_r =~= channel_samples(buffer@, 1));
            assert(whites_l =~= channel_samples(old(buffer)@, 0));
            assert(whites_r =~= channel_samples(old(buffer)@, 1));
        }
        self.left = Channel::keep(left);
        self.right = Channel::keep(right);
        proof {
            assert(channel_course(
                ops,
                *cfg,
                old(self).sample_rate,
                old(self).left,
                self.left,
                voices_l,
                whites_l,
                outs_l,
            ));
            assert(channel_course(
                ops,
                *cfg,
                old(self).sample_rate,
                old(self).right,
                self.right,
                voices_r,
                whites_r,
                outs_r,
            ));
        }
    }

    /// Synthesizes one buffer of interleaved stereo frames from `cfg`: draws
    /// one white sample for each sample of the buffer, for each frame the
    /// left before the right, and shapes them. The buffer holds whole frames.
    pub fn synthesize<A: Arithmetic, N: NoiseSource>(
        &mut self,
        cfg: &Config,
        ops: &A,
        noise: &mut N,
        buffer: &mut [Single],
    )
        requires
            whole_frames(old(buffer)@),
        ensures
            final(buffer)@.len() == old(buffer)@.len(),
            all_clamped(final(buffer)@),
            Synth::rendered(ops, *cfg, *old(self), *final(self), final(buffer)@),
    {
        let n: usize = buffer.len();
        let mut i: usize = 0;
        while i < n
            invariant
                n == buffer@.len(),
                buffer@.len() == old(buffer)@.len(),
                i <= n,
            decreases n - i,
        {
            buffer[i] = noise.next_white();
            i += 1;
        }
        let ghost whites = buffer@;
        self.shape(cfg, ops, buffer);
        assert(Synth::shaped(ops, *cfg, *old(self), *self, whites, buffer@));
    }

    /// Fills one buffer, given the mute state that was read for it.
    ///
    /// Muted: the buffer is all `0.0`, and neither the engine nor the noise
    /// source changes; the settings are not read. Not muted: takes one
    /// snapshot of the settings and synthesizes from it.
    pub fn render<A: Arithmetic, N: NoiseSource, C: ConfigSource>(
        &mut self,
        muted: bool,
        shared: &C,
        ops: &A,
        noise: &mut N,
        buffer: &mut [Single],
    )
        requires
            !muted ==> whole_frames(old(buffer)@),
        ensures
            final(buffer)@.len() == old(buffer)@.len(),
            all_clamped(final(buffer)@),
            muted ==> silent(final(buffer)@),
            muted ==> *final(self) == *old(self),
            muted ==> *final(noise) == *old(noise),
            !muted ==> exists|cfg: Config| #[trigger]
                Synth::rendered_from(shared, ops, cfg, *old(self), *final(self), final(buffer)@),
            final(self).sample_rate == old(self).sample_rate,
    {
        if muted {
            silence(buffer);
        } else {
            let cfg = shared.snapshot();
            self.synthesize(&cfg, ops, noise, buffer);
            assert(Synth::rendered_from(shared, ops, cfg, *old(self), *self, buffer@));
        }
    }

    /// The audio callback: reads the mute switch, then fills the buffer as
    /// `render` does for the state that was read. The buffer holds whole
    /// frames.
    pub fn callback<A: Arithmetic, N: NoiseSource, C: ConfigSource>(
        &mut self,
        mute: &MuteController,
        shared: &C,
        ops: &A,
        noise: &mut N,
        buffer: &mut [Single],
    )
        requires
            whole_frames(old(buffer)@),
        ensures
            final(buffer)@.len() == old(buffer)@.len(),
            all_clamped(final(buffer)@),
            final(self).sample_rate == old(self).sample_rate,
            ({
                ||| {
                    &&& mute.found(true)
                    &&& *final(self) == *old(self)
                    &&& *final(noise) == *old(noise)
                    &&& silent(final(buffer)@)
                }
                ||| {
                    &&& mute.found(false)
                    &&& exists|cfg: Config| #[trigger]
                        Synth::rendered_from(
                            shared,
                            ops,
                            cfg,
                            *old(self),
                            *final(self),
                            final(buffer)@,
                        )
                }
            }),
    {
        let muted = mute.is_muted();
        self.render(muted, shared, ops, noise, buffer);
    }
}

/// Equal runs give equal output, bit for bit: under an arithmetic that is a
/// function, the samples and the engine afterwards are fixed by the engine
/// before, the settings and the white samples.
pub proof fn lemma_shaping_is_a_function<A: Arithmetic>(
    ops: &A,
    cfg: Config,
    before: Synth,
    whites: Seq<Single>,
    first: Synth,
    first_samples: Seq<Single>,
    second: Synth,
    second_samples: Seq<Single>,
)
    requires
        is_function(ops),
        whole_frames(whites),
        Synth::shaped(ops, cfg, before, first, whites, first_samples),
        Synth::shaped(ops, cfg, before, second, whites, second_samples),
    ensures
        first_samples == second_samples,
        first == second,
{
    lemma_channel_shaping_is_a_function(
        ops,
        cfg,
        before.sample_rate,
        before.left,
        channel_samples(whites, 0),
        first.left,
        channel_samples(first_samples, 0),
        second.left,
        channel_samples(second_samples, 0),
    );
    lemma_channel_shaping_is_a_function(
        ops,
        cfg,
        before.sample_rate,
        before.right,
        channel_samples(whites, 1),
        first.right,
        channel_samples(first_samples, 1),
        second.right,
        channel_samples(second_samples, 1),
    );
    assert forall|k: int| 0 <= k < first_samples.len() implies first_samples[k]
        == second_samples[k] by {
        let i = k / 2;
        if k % 2 == 0 {
            assert(channel_samples(first_samples, 0)[i] == first_samples[k]);
            assert(channel_samples(second_samples, 0)[i] == second_samples[k]);
        } else {
            assert(channel_samples(first_samples, 1)[i] == first_samples[k]);
            assert(channel_samples(second_samples, 1)[i] == second_samples[k]);
        }
    }
    assert(first_samples =~= second_samples);
}

} // verus!
