//! Fixed-point core of a two-operator FM synthesizer: phase-accumulating
//! oscillators, an ADSR envelope stage machine, FM voices and a small voice
//! pool with a deterministic steal/reuse policy.
//!
//! All values are integers:
//! - frequencies are in milli-hertz (`FREQ_SCALE` units per hertz), and an
//!   oscillator's phase is a count of those units out of one period of
//!   `sample_rate * FREQ_SCALE`;
//! - envelope levels run from `0` to `LEVEL_ONE` (1.0);
//! - waveform samples run from `-AMP_ONE` to `AMP_ONE` (-1.0 to 1.0);
//! - ratio, depth and gain are in thousandths (`PARAM_ONE` is 1.0).
use vstd::prelude::*;

pub mod arith;
pub mod envelope;
pub mod laws;
pub mod oscillator;
pub mod synth;
pub mod voice;
pub mod wavetable;

verus! {

/// Units of frequency per hertz: frequencies are given in milli-hertz.
pub const FREQ_SCALE: u64 = 1000;

/// The largest oscillator period: the largest `u32` sample rate in frequency units.
pub const MAX_PERIOD: u64 = 4294967295 * 1000;

/// Full envelope level (1.0).
pub const LEVEL_ONE: u32 = 0x4000_0000;

/// Full waveform amplitude (1.0).
pub const AMP_ONE: i32 = 32768;

/// Ratio, depth and gain of 1.0: they are given in thousandths.
pub const PARAM_ONE: u64 = 1000;

} // verus!
