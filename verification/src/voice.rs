//! Voice: one active or releasing note performance. A voice bundles an
//! oscillator, an envelope controller, the pitch-bend frequency smoother and
//! its assigned pool slot.
//!
//! The voice's *target* frequency is set on pitch-bend events; the smoother
//! nudges the oscillator's *current* frequency toward it by exactly one
//! hertz per smoothing tick, so a bend glides rather than jumps.

use vstd::arithmetic::div_mod::{
    lemma_div_is_ordered, lemma_div_multiples_vanish, lemma_div_pos_is_pos,
    lemma_fundamental_div_mod, lemma_mod_add_multiples_vanish, lemma_mod_sub_multiples_vanish,
};
use vstd::arithmetic::mul::lemma_mul_inequality;
use vstd::prelude::*;

use crate::envelope::AdsrParams;
use crate::envelope::Envelope;
use crate::osc::spec_period;
use crate::osc::spec_wave_sample;
use crate::osc::spec_wrap_inc;
use crate::osc::Oscillator;
use crate::osc::WaveType;
use crate::AMP_ONE;
use crate::FREQ_LIMIT;
use crate::FREQ_UNITS_PER_HZ;
use crate::MAX_POLYPHONY;
use crate::NOTE_COUNT;

verus! {

/// An oscillator sample scaled by the envelope's amplitude multiplier, in
/// `AMP_ONE` units, rounded toward zero.
pub open spec fn spec_scale(s: int, amp: int) -> int {
    let prod = s * amp;
    if prod >= 0 {
        prod / (AMP_ONE as int)
    } else {
        -((-prod) / (AMP_ONE as int))
    }
}

/// Applies the envelope's amplitude multiplier to one raw sample.
pub fn scale_amp(s: i64, amp: i64) -> (r: i64)
    requires
        -AMP_ONE <= s <= AMP_ONE,
        -2 * (AMP_ONE as int) <= amp <= 2 * (AMP_ONE as int),
    ensures
        r == spec_scale(s as int, amp as int),
        -2 * (AMP_ONE as int) <= r <= 2 * (AMP_ONE as int),
{
    proof {
        assert(-2 * (AMP_ONE as int) * (AMP_ONE as int) <= (s as int) * (amp as int) <= 2 * (
        AMP_ONE as int) * (AMP_ONE as int)) by (nonlinear_arith)
            requires
                -AMP_ONE <= s <= AMP_ONE,
                -2 * (AMP_ONE as int) <= amp <= 2 * (AMP_ONE as int);
    }
    let prod: i64 = s * amp;
    if prod >= 0 {
        let q: u64 = (prod as u64) / (AMP_ONE as u64);
        proof {
            lemma_scale_quotient_bound(prod as int);
        }
        q as i64
    } else {
        let q: u64 = ((-prod) as u64) / (AMP_ONE as u64);
        proof {
            lemma_scale_quotient_bound((-prod) as int);
        }
        -(q as i64)
    }
}

/// A nonnegative product of a sample and an amplitude, divided by
/// `AMP_ONE`, stays within twice the amplitude scale.
proof fn lemma_scale_quotient_bound(prod: int)
    requires
        0 <= prod <= 2 * (AMP_ONE as int) * (AMP_ONE as int),
    ensures
        0 <= prod / (AMP_ONE as int) <= 2 * (AMP_ONE as int),
{
    let a = AMP_ONE as int;
    lemma_div_pos_is_pos(prod, a);
    lemma_div_is_ordered(prod, 2 * a * a, a);
    assert(2 * a * a == a * (2 * a)) by (nonlinear_arith);
    lemma_div_multiples_vanish(2 * a, a);
}

/// A fresh voice for `note` in `slot`: oscillator at the note's natural
/// frequency, envelope in attack.
pub open spec fn spec_new_voice(
    note: u8,
    slot: usize,
    freq: i64,
    wave: WaveType,
    params: AdsrParams,
) -> Voice {
    Voice {
        note,
        slot,
        wave,
        base_freq: freq,
        target_freq: freq,
        osc: crate::osc::spec_new_osc(freq, wave),
        env: Envelope::spec_new_env(params),
    }
}

/// One active or releasing note performance.
#[derive(Clone, Copy, Debug)]
pub struct Voice {
    /// The note identifier this voice was started for.
    pub note: u8,
    /// The pool slot the voice plays in; never changes after creation.
    pub slot: usize,
    /// Waveform shape; fixed at creation.
    pub wave: WaveType,
    /// The note's natural frequency, fixed at creation.
    pub base_freq: i64,
    /// Where the smoother is heading; moved by pitch-bend events.
    pub target_freq: i64,
    /// The oscillator rendering this voice; its `freq` is the *current*
    /// frequency the smoother adjusts.
    pub osc: Oscillator,
    /// The amplitude envelope.
    pub env: Envelope,
}

impl Voice {
    /// Well-formedness: indices in range, the envelope well-formed, and both
    /// the target and the current frequency within one bend radius of the
    /// base frequency, differing from it by whole-hertz steps.
    pub open spec fn inv(self) -> bool {
        &&& (self.note as int) < (NOTE_COUNT as int)
        &&& (self.slot as int) < (MAX_POLYPHONY as int)
        &&& 1 <= self.base_freq <= FREQ_LIMIT
        &&& self.base_freq - 64 * (FREQ_UNITS_PER_HZ as int) <= self.target_freq
            <= self.base_freq + 63 * (FREQ_UNITS_PER_HZ as int)
        &&& (self.target_freq - self.base_freq) % (FREQ_UNITS_PER_HZ as int) == 0
        &&& self.base_freq - 64 * (FREQ_UNITS_PER_HZ as int) <= self.osc.freq
            <= self.base_freq + 63 * (FREQ_UNITS_PER_HZ as int)
        &&& (self.osc.freq - self.base_freq) % (FREQ_UNITS_PER_HZ as int) == 0
        &&& self.osc.wave == self.wave
        &&& self.env.inv()
    }

    /// A voice as `retrigger` leaves it: oscillator and envelope restarted
    /// in the same slot, the current frequency snapped to the target, and
    /// the release request, if one is pending, still pending.
    pub open spec fn spec_retrigger(self) -> Voice {
        Voice {
            osc: Oscillator {
                freq: self.target_freq,
                num_sample: 0,
                wave: self.wave,
                last_value: 0,
            },
            env: Envelope {
                ticks: 0,
                amplitude: 0,
                release_marked: false,
                release_start: 0,
                stopped: false,
                ..self.env
            },
            ..self
        }
    }

    /// A voice as `release` leaves it.
    pub open spec fn spec_release(self) -> Voice {
        Voice { env: Envelope { releasing: true, ..self.env }, ..self }
    }

    /// The current frequency after one smoothing tick: one whole hertz
    /// toward the target, or unchanged at the target.
    pub open spec fn spec_smooth_freq(self) -> int {
        if self.osc.freq == self.target_freq {
            self.osc.freq as int
        } else if self.osc.freq > self.target_freq {
            self.osc.freq - FREQ_UNITS_PER_HZ
        } else {
            self.osc.freq + FREQ_UNITS_PER_HZ
        }
    }

    /// A voice as `smooth_tick` leaves it.
    pub open spec fn spec_smooth(self) -> Voice {
        Voice {
            osc: Oscillator { freq: self.spec_smooth_freq() as i64, ..self.osc },
            ..self
        }
    }

    /// The raw waveform sample the next oscillator advance produces, before
    /// envelope scaling; `None` for a sine voice.
    pub open spec fn spec_raw_sample(self) -> Option<i64> {
        spec_wave_sample(
            self.wave,
            spec_wrap_inc(self.osc.num_sample) as int,
            spec_period(self.osc.freq as int),
        )
    }

    /// The envelope-scaled sample the next oscillator advance produces;
    /// `None` for a sine voice.
    pub open spec fn spec_sample_of(self) -> Option<i64> {
        match self.spec_raw_sample() {
            Some(raw) => Some(spec_scale(raw as int, self.env.amplitude as int) as i64),
            None => None,
        }
    }

    /// A voice as one `next_sample` call leaves it: the oscillator advanced
    /// by one sample, everything else untouched.
    pub open spec fn spec_advance(self) -> Voice {
        Voice {
            osc: Oscillator {
                freq: self.osc.freq,
                num_sample: spec_wrap_inc(self.osc.num_sample),
                wave: self.osc.wave,
                last_value: if self.wave is Saw || self.wave is Triangle {
                    self.spec_raw_sample()->Some_0
                } else {
                    self.osc.last_value
                },
            },
            ..self
        }
    }

    /// A fresh voice for `note` in `slot`: oscillator at the note's natural
    /// frequency, envelope in attack.
    pub fn new(note: u8, slot: usize, freq: i64, wave: WaveType, params: AdsrParams) -> (v: Voice)
        requires
            (note as int) < (NOTE_COUNT as int),
            (slot as int) < (MAX_POLYPHONY as int),
            1 <= freq <= FREQ_LIMIT,
            params.wf(),
        ensures
            v.inv(),
            v == spec_new_voice(note, slot, freq, wave, params),
    {
        Voice {
            note,
            slot,
            wave,
            base_freq: freq,
            target_freq: freq,
            osc: Oscillator::new(freq, wave),
            env: Envelope::new(params),
        }
    }

    /// Restarts playback in the same slot: a fresh oscillator run at the
    /// current target frequency and a fresh envelope ramp, without touching
    /// the slot assignment or a pending release request. This is what a
    /// repeated note-on does to an already sounding note.
    pub fn retrigger(&mut self)
        requires
            old(self).inv(),
        ensures
            final(self).inv(),
            *final(self) == old(self).spec_retrigger(),
    {
        self.osc = Oscillator::new(self.target_freq, self.wave);
        let fresh = Envelope {
            ticks: 0,
            amplitude: 0,
            release_marked: false,
            release_start: 0,
            stopped: false,
            attack_samples: self.env.attack_samples,
            decay_samples: self.env.decay_samples,
            release_samples: self.env.release_samples,
            sustain: self.env.sustain,
            releasing: self.env.releasing,
        };
        proof {
            assert(fresh.attack_count(0) == 0);
            assert(fresh.decay_count(0) == 0);
            assert(fresh.plain_amp(0) == 0);
        }
        self.env = fresh;
    }

    /// Requests the release ramp on this voice's envelope.
    pub fn release(&mut self)
        requires
            old(self).inv(),
        ensures
            final(self).inv(),
            *final(self) == old(self).spec_release(),
    {
        self.env.release();
    }

    /// One smoothing tick: moves the oscillator's current frequency exactly
    /// one hertz toward the target, never overshooting it.
    pub fn smooth_tick(&mut self)
        requires
            old(self).inv(),
        ensures
            final(self).inv(),
            *final(self) == old(self).spec_smooth(),
    {
        proof {
            lemma_whole_hertz_gap(
                self.osc.freq as int,
                self.target_freq as int,
                self.base_freq as int,
            );
        }
        if self.osc.freq != self.target_freq {
            if self.osc.freq > self.target_freq {
                let nf: i64 = self.osc.freq - FREQ_UNITS_PER_HZ;
                self.osc.set_freq(nf);
            } else {
                let nf: i64 = self.osc.freq + FREQ_UNITS_PER_HZ;
                self.osc.set_freq(nf);
            }
            proof {
                lemma_mod_sub_multiples_vanish(
                    old(self).osc.freq - self.base_freq,
                    FREQ_UNITS_PER_HZ as int,
                );
                lemma_mod_add_multiples_vanish(
                    old(self).osc.freq - self.base_freq,
                    FREQ_UNITS_PER_HZ as int,
                );
            }
        }
    }

    /// Advances the oscillator once and applies the envelope's amplitude
    /// multiplier. `Some` of the scaled fixed-point sample, or `None` for a
    /// sine voice (whose raw waveform the caller evaluates from `osc.freq`
    /// and `osc.num_sample` before applying `env.amplitude`).
    pub fn next_sample(&mut self) -> (s: Option<i64>)
        requires
            old(self).inv(),
        ensures
            final(self).inv(),
            *final(self) == old(self).spec_advance(),
            s == old(self).spec_sample_of(),
            s matches Some(x) ==> -2 * (AMP_ONE as int) <= x <= 2 * (AMP_ONE as int),
    {
        let raw = self.osc.next_sample();
        match raw {
            Some(v) => Some(scale_amp(v, self.env.amplitude)),
            None => None,
        }
    }
}

/// The voice after `k` consecutive smoothing ticks.
pub open spec fn spec_smooth_run(v: Voice, k: nat) -> Voice
    decreases k,
{
    if k == 0 {
        v
    } else {
        spec_smooth_run(v.spec_smooth(), (k - 1) as nat)
    }
}

/// A voice whose current frequency has reached its target no longer moves.
pub proof fn lemma_smooth_run_stable(v: Voice, k: nat)
    requires
        v.osc.freq == v.target_freq,
    ensures
        spec_smooth_run(v, k) == v,
    decreases k,
{
    if k > 0 {
        assert(v.spec_smooth() == v);
        lemma_smooth_run_stable(v.spec_smooth(), (k - 1) as nat);
    }
}

/// `spec_smooth` preserves the voice invariant.
pub proof fn lemma_smooth_preserves_inv(v: Voice)
    requires
        v.inv(),
    ensures
        v.spec_smooth().inv(),
{
    lemma_whole_hertz_gap(v.osc.freq as int, v.target_freq as int, v.base_freq as int);
    if v.osc.freq != v.target_freq {
        lemma_mod_sub_multiples_vanish(v.osc.freq - v.base_freq, FREQ_UNITS_PER_HZ as int);
        lemma_mod_add_multiples_vanish(v.osc.freq - v.base_freq, FREQ_UNITS_PER_HZ as int);
    }
}

/// Law of the glide: the smoother closes the gap to the target by exactly
/// one hertz per tick and stops there, so any run of ticks long enough to
/// cover the gap leaves the current frequency exactly at the target — no
/// overshoot, whatever the starting point.
pub proof fn lemma_glide_reaches_target(v: Voice, k: nat)
    requires
        v.inv(),
        k * (FREQ_UNITS_PER_HZ as int) >= (if v.target_freq >= v.osc.freq {
            v.target_freq - v.osc.freq
        } else {
            v.osc.freq - v.target_freq
        }),
    ensures
        spec_smooth_run(v, k).osc.freq == v.target_freq,
        spec_smooth_run(v, k).target_freq == v.target_freq,
        spec_smooth_run(v, k).inv(),
    decreases k,
{
    if v.osc.freq == v.target_freq {
        lemma_smooth_run_stable(v, k);
    } else {
        lemma_whole_hertz_gap(v.osc.freq as int, v.target_freq as int, v.base_freq as int);
        lemma_smooth_preserves_inv(v);
        let v1 = v.spec_smooth();
        lemma_glide_reaches_target(v1, (k - 1) as nat);
    }
}

/// Two frequencies that both differ from the base by whole-hertz steps
/// differ from each other by at least one whole hertz, unless they are
/// equal.
proof fn lemma_whole_hertz_gap(f: int, t: int, b: int)
    requires
        (f - b) % (FREQ_UNITS_PER_HZ as int) == 0,
        (t - b) % (FREQ_UNITS_PER_HZ as int) == 0,
    ensures
        f > t ==> f - FREQ_UNITS_PER_HZ >= t,
        f < t ==> f + FREQ_UNITS_PER_HZ <= t,
{
    let u = FREQ_UNITS_PER_HZ as int;
    let df = f - b;
    let dt = t - b;
    lemma_fundamental_div_mod(df, u);
    lemma_fundamental_div_mod(dt, u);
    let qf = df / u;
    let qt = dt / u;
    assert(u * qf - u * qt == u * (qf - qt)) by (nonlinear_arith);
    if f > t {
        assert(qf - qt >= 1) by (nonlinear_arith)
            requires
                u * (qf - qt) > 0,
                u >= 1;
        lemma_mul_inequality(1, qf - qt, u);
        assert((qf - qt) * u == u * (qf - qt)) by (nonlinear_arith);
    }
    if f < t {
        assert(qt - qf >= 1) by (nonlinear_arith)
            requires
                u * (qf - qt) < 0,
                u >= 1;
        lemma_mul_inequality(1, qt - qf, u);
        assert((qt - qf) * u == -(u * (qf - qt))) by (nonlinear_arith);
    }
}

} // verus!
