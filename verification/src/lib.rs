//! Core of a real-time polyphonic synthesizer: oscillators, ADSR envelopes,
//! pitch-bend smoothing, a fixed-capacity voice pool, and the note registry
//! with sustain-pedal semantics.
//!
//! Audio amplitudes are fixed-point integers: `AMP_ONE` units stand for an
//! amplitude of 1.0. Frequencies are fixed-point too: `FREQ_UNITS_PER_HZ`
//! units stand for 1 Hz. The unverifiable edges (audio device, event input,
//! digital inputs, and the transcendental sine evaluation) live outside this
//! crate and exchange plain integer values with it.

pub mod control;
pub mod engine;
pub mod envelope;
pub mod events;
pub mod osc;
pub mod voice;

use vstd::prelude::*;

verus! {

/// Samples per second of the rendered audio.
pub const SAMPLE_RATE: u64 = 44_000;

/// Envelope ticks per millisecond when the envelope is ticked once per sample.
pub const TICKS_PER_MS: u64 = SAMPLE_RATE / 1000;

/// Fixed-point amplitude scale: this many units stand for an amplitude of 1.0.
pub const AMP_ONE: i64 = 1_000_000;

/// Fixed-point frequency scale: this many units stand for 1 Hz.
pub const FREQ_UNITS_PER_HZ: i64 = 1000;

/// Number of playback slots; no more than this many voices sound at once.
pub const MAX_POLYPHONY: usize = 16;

/// Number of distinct note identifiers an event may carry.
pub const NOTE_COUNT: usize = 128;

/// Upper machine bound on a note's base frequency, in `FREQ_UNITS_PER_HZ`
/// units (one million Hz): far above any audible pitch, low enough that the
/// pitch-bend arithmetic can never overflow.
pub const FREQ_LIMIT: i64 = 1_000_000_000;

} // verus!
