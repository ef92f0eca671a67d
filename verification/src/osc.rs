//! Oscillator: produces one fixed-point amplitude sample of a periodic
//! waveform per call.
//!
//! Square, saw and triangle waves are computed here exactly, over integers.
//! A sine wave needs a transcendental evaluation that this crate does not
//! perform; for it, `next_sample` only advances the phase and returns `None`,
//! and the caller evaluates `sin(2*pi*freq*num_sample/SAMPLE_RATE)` from the
//! oscillator's `freq` and `num_sample` fields.

use vstd::arithmetic::div_mod::{
    lemma_div_is_ordered, lemma_div_multiples_vanish, lemma_div_nonincreasing,
    lemma_div_pos_is_pos, lemma_fundamental_div_mod, lemma_fundamental_div_mod_converse_mod,
    lemma_mod_bound,
};
use vstd::arithmetic::mul::{
    lemma_mul_inequality, lemma_mul_is_commutative, lemma_mul_upper_bound,
};
use vstd::prelude::*;

use crate::AMP_ONE;
use crate::FREQ_UNITS_PER_HZ;
use crate::SAMPLE_RATE;

verus! {

/// The shape of the periodic waveform a voice plays; fixed once the voice is
/// created.
#[derive(Clone, Copy, Debug, PartialEq, Eq, Structural)]
pub enum WaveType {
    Sine,
    Square,
    Saw,
    Triangle,
}

/// Length of one waveform period, in samples, for a frequency given in
/// `FREQ_UNITS_PER_HZ` units. Degenerate frequencies (zero, negative, or
/// above the sample rate) are clamped so that the period is always at least
/// one sample and no division by zero can occur.
pub open spec fn spec_period(freq: int) -> int {
    let f = if freq < 1 {
        1int
    } else {
        freq
    };
    let raw = (SAMPLE_RATE as int) * (FREQ_UNITS_PER_HZ as int) / f;
    if raw < 1 {
        1int
    } else {
        raw
    }
}

/// Square wave: `AMP_ONE` for the first half of each period (by sample
/// count), `-AMP_ONE` for the rest.
pub open spec fn spec_square(n: int, p: int) -> int
    recommends
        p >= 1,
{
    if n % p <= p / 2 {
        AMP_ONE as int
    } else {
        -(AMP_ONE as int)
    }
}

/// Saw wave: a linear ramp across each period, computed with a centered
/// fractional wrap `2 * (n/p - round(n/p))`; the value lies in
/// `[-AMP_ONE, AMP_ONE]`.
pub open spec fn spec_saw(n: int, p: int) -> int
    recommends
        p >= 1,
{
    let m = n % p;
    if 2 * m < p {
        2 * (AMP_ONE as int) * m / p
    } else {
        -(2 * (AMP_ONE as int) * (p - m) / p)
    }
}

/// Triangle wave: the saw's centered fraction folded into a linear rise and
/// fall, `2 * |saw| - AMP_ONE`.
pub open spec fn spec_triangle(n: int, p: int) -> int
    recommends
        p >= 1,
{
    let s = spec_saw(n, p);
    let a = if s < 0 {
        -s
    } else {
        s
    };
    2 * a - AMP_ONE as int
}

/// The sample counter advances once per sample and wraps around at the top
/// of its range instead of overflowing.
pub open spec fn spec_wrap_inc(n: u64) -> u64 {
    if n == u64::MAX {
        0u64
    } else {
        (n + 1) as u64
    }
}

/// One sample of the waveform `w` at sample count `n` with period `p`, or
/// `None` where the waveform needs the transcendental sine evaluation.
pub open spec fn spec_wave_sample(w: WaveType, n: int, p: int) -> Option<i64>
    recommends
        p >= 1,
{
    match w {
        WaveType::Sine => None,
        WaveType::Square => Some(spec_square(n, p) as i64),
        WaveType::Saw => Some(spec_saw(n, p) as i64),
        WaveType::Triangle => Some(spec_triangle(n, p) as i64),
    }
}

/// Produces one amplitude sample per call: a stateful, infinite,
/// non-restartable sequence. The frequency may be changed between calls (the
/// pitch-bend glide does); the next sample always uses the current value.
#[derive(Clone, Copy, Debug)]
pub struct Oscillator {
    /// Current frequency, in `FREQ_UNITS_PER_HZ` units per Hz.
    pub freq: i64,
    /// Monotonically increasing sample count; wraps at the top of its range.
    pub num_sample: u64,
    /// Waveform shape; fixed after creation.
    pub wave: WaveType,
    /// Last computed saw or triangle value, retained for continuity.
    pub last_value: i64,
}

/// The period of `freq` in samples, clamped to at least one sample.
pub fn period_of(freq: i64) -> (p: u64)
    ensures
        p == spec_period(freq as int),
        1 <= p <= (SAMPLE_RATE as int) * (FREQ_UNITS_PER_HZ as int),
{
    let f: u64 = if freq < 1 {
        1
    } else {
        freq as u64
    };
    let num: u64 = SAMPLE_RATE * (FREQ_UNITS_PER_HZ as u64);
    let raw: u64 = num / f;
    proof {
        lemma_div_nonincreasing(num as int, f as int);
    }
    if raw < 1 {
        1
    } else {
        raw
    }
}

/// One square-wave sample, exactly `spec_square`.
pub fn square_sample(n: u64, p: u64) -> (s: i64)
    requires
        1 <= p,
    ensures
        s == spec_square(n as int, p as int),
        s == AMP_ONE || s == -AMP_ONE,
{
    let m: u64 = n % p;
    if m <= p / 2 {
        AMP_ONE
    } else {
        -AMP_ONE
    }
}

/// One saw-wave sample, exactly `spec_saw`; the result lies in
/// `[-AMP_ONE, AMP_ONE]`.
pub fn saw_sample(n: u64, p: u64) -> (s: i64)
    requires
        1 <= p <= (SAMPLE_RATE as int) * (FREQ_UNITS_PER_HZ as int),
    ensures
        s == spec_saw(n as int, p as int),
        -AMP_ONE <= s <= AMP_ONE,
{
    let m: u64 = n % p;
    proof {
        lemma_mod_bound(n as int, p as int);
    }
    if 2 * m < p {
        proof {
            lemma_mul_upper_bound(
                2 * (AMP_ONE as int),
                2 * (AMP_ONE as int),
                m as int,
                (SAMPLE_RATE as int) * (FREQ_UNITS_PER_HZ as int),
            );
        }
        let num: u64 = 2 * (AMP_ONE as u64) * m;
        let q: u64 = num / p;
        proof {
            lemma_saw_quotient_bound(m as int, p as int);
        }
        q as i64
    } else {
        proof {
            lemma_mul_upper_bound(
                2 * (AMP_ONE as int),
                2 * (AMP_ONE as int),
                (p - m) as int,
                (SAMPLE_RATE as int) * (FREQ_UNITS_PER_HZ as int),
            );
        }
        let num: u64 = 2 * (AMP_ONE as u64) * (p - m);
        let q: u64 = num / p;
        proof {
            lemma_saw_quotient_bound((p - m) as int, p as int);
        }
        -(q as i64)
    }
}

/// For `0 <= k` with `2 * k <= p`, the scaled quotient `2 * AMP_ONE * k / p`
/// lies in `[0, AMP_ONE]`.
proof fn lemma_saw_quotient_bound(k: int, p: int)
    requires
        0 <= k,
        2 * k <= p,
        1 <= p,
    ensures
        0 <= 2 * (AMP_ONE as int) * k / p <= AMP_ONE as int,
{
    let a = AMP_ONE as int;
    assert(2 * a * k == (2 * k) * a) by (nonlinear_arith);
    assert(2 * a * k >= 0) by (nonlinear_arith)
        requires
            k >= 0,
            a >= 0;
    lemma_div_pos_is_pos(2 * a * k, p);
    lemma_mul_inequality(2 * k, p, a);
    assert((2 * k) * a <= p * a);
    lemma_mul_is_commutative(p, a);
    lemma_div_is_ordered(2 * a * k, a * p, p);
    lemma_div_multiples_vanish(a, p);
    assert((p * a) / p == a);
}

/// Law of the square wave: its output takes only the two values `AMP_ONE`
/// and `-AMP_ONE` — high exactly on the first half of each period — and
/// between consecutive samples it switches exactly twice per period: once
/// at the end of the high half (`n % p == p / 2`) and once at the end of
/// the period (`n % p == p - 1`). Stated for periods of at least three
/// samples; a one- or two-sample period (a frequency close to the sample
/// rate) collapses to a constant high level and has no transitions.
pub proof fn lemma_square_half_period(n: int, p: int)
    requires
        0 <= n,
        3 <= p,
    ensures
        spec_square(n, p) == AMP_ONE || spec_square(n, p) == -AMP_ONE,
        spec_square(n, p) == AMP_ONE <==> n % p <= p / 2,
        (spec_square(n + 1, p) != spec_square(n, p)) <==> (n % p == p / 2 || n % p == p - 1),
{
    let m = n % p;
    let q = n / p;
    lemma_fundamental_div_mod(n, p);
    lemma_mod_bound(n, p);
    if m < p - 1 {
        lemma_fundamental_div_mod_converse_mod(n + 1, p, q, m + 1);
    } else {
        assert(p * q + p == p * (q + 1)) by (nonlinear_arith);
        lemma_fundamental_div_mod_converse_mod(n + 1, p, q + 1, 0);
    }
}

/// One triangle-wave sample, exactly `spec_triangle`; the result lies in
/// `[-AMP_ONE, AMP_ONE]`.
pub fn triangle_sample(n: u64, p: u64) -> (s: i64)
    requires
        1 <= p <= (SAMPLE_RATE as int) * (FREQ_UNITS_PER_HZ as int),
    ensures
        s == spec_triangle(n as int, p as int),
        -AMP_ONE <= s <= AMP_ONE,
{
    let saw: i64 = saw_sample(n, p);
    let a: i64 = if saw < 0 {
        -saw
    } else {
        saw
    };
    2 * a - AMP_ONE
}

/// A fresh oscillator at sample count zero.
pub open spec fn spec_new_osc(freq: i64, wave: WaveType) -> Oscillator {
    Oscillator { freq, num_sample: 0, wave, last_value: 0 }
}

impl Oscillator {
    /// A fresh oscillator at sample count zero.
    pub fn new(freq: i64, wave: WaveType) -> (o: Oscillator)
        ensures
            o == spec_new_osc(freq, wave),
    {
        Oscillator { freq, num_sample: 0, wave, last_value: 0 }
    }

    /// Advances the sample counter and produces the next sample: `Some` of
    /// the exact fixed-point amplitude for square, saw and triangle waves,
    /// `None` for sine (the caller evaluates the sine from `freq` and
    /// `num_sample`). Saw and triangle retain the value in `last_value`.
    pub fn next_sample(&mut self) -> (s: Option<i64>)
        ensures
            final(self).freq == old(self).freq,
            final(self).wave == old(self).wave,
            final(self).num_sample == spec_wrap_inc(old(self).num_sample),
            s == spec_wave_sample(
                old(self).wave,
                final(self).num_sample as int,
                spec_period(old(self).freq as int),
            ),
            s matches Some(v) ==> -AMP_ONE <= v <= AMP_ONE,
            final(self).last_value == (if old(self).wave is Saw || old(self).wave is Triangle {
                s->Some_0
            } else {
                old(self).last_value
            }),
    {
        self.num_sample = if self.num_sample == u64::MAX {
            0
        } else {
            self.num_sample + 1
        };
        let p: u64 = period_of(self.freq);
        match self.wave {
            WaveType::Sine => None,
            WaveType::Square => Some(square_sample(self.num_sample, p)),
            WaveType::Saw => {
                let v = saw_sample(self.num_sample, p);
                self.last_value = v;
                Some(v)
            },
            WaveType::Triangle => {
                let v = triangle_sample(self.num_sample, p);
                self.last_value = v;
                Some(v)
            },
        }
    }

    /// Sets the current frequency; the glide toward a pitch-bend target uses
    /// this between samples.
    pub fn set_freq(&mut self, freq: i64)
        ensures
            final(self).freq == freq,
            final(self).wave == old(self).wave,
            final(self).num_sample == old(self).num_sample,
            final(self).last_value == old(self).last_value,
    {
        self.freq = freq;
    }
}

} // verus!
