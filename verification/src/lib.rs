//! A real-time coloured-noise synthesizer: seeded white noise is integrated
//! into brown noise, split into three bands by second-order filters, mixed
//! and clamped, one interleaved stereo buffer at a time.
//!
//! Samples and settings are single-precision values carried by their bit
//! patterns (`single`). Whatever depends on the order of values alone is
//! decided and proved on the bits. The rounding operations come from an
//! implementation of `arithmetic::Arithmetic`; a contract names each
//! computed value by the formula that the arithmetic was asked for.
//!
//! `dsp::Synth::callback` fills one buffer of an output device;
//! `dsp::Synth::render` does the same for a mute state that the caller has
//! read.

pub mod arithmetic;
pub mod bass_boost;
pub mod biquad;
pub mod channel;
pub mod config;
pub mod dsp;
pub mod entry;
pub mod seed;
pub mod single;
