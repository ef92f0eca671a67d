//! Envelope controller: a per-voice attack-decay-sustain-release state
//! machine ticked at a fixed interval, producing a fixed-point amplitude
//! multiplier for the voice's raw oscillator samples.
//!
//! Each tick advances the counter and applies at most one linear step:
//! during attack the amplitude rises by `AMP_ONE / attack_samples`, during
//! decay it falls by `(AMP_ONE - sustain) / decay_samples`, during sustain it
//! holds, and once release has been requested it falls by
//! `sustain / release_samples` until the release duration has elapsed, at
//! which point the envelope stops (the voice's slot is then freed). The
//! release step is derived from the sustain level no matter what amplitude
//! the envelope actually carried when release began; releasing early in the
//! attack therefore undershoots zero. That asymmetry is a deliberate part
//! of this engine's design, and the contracts state it exactly.

use vstd::arithmetic::div_mod::{
    lemma_div_nonincreasing, lemma_div_pos_is_pos, lemma_fundamental_div_mod, lemma_mod_bound,
};
use vstd::arithmetic::mul::{lemma_mul_inequality, lemma_mul_nonnegative};
use vstd::prelude::*;

use crate::AMP_ONE;
use crate::TICKS_PER_MS;

verus! {

/// ADSR parameters: durations in milliseconds, sustain level as a
/// fixed-point fraction of `AMP_ONE`.
#[derive(Clone, Copy, Debug, PartialEq, Eq, Structural)]
pub struct AdsrParams {
    pub attack_ms: u64,
    pub decay_ms: u64,
    /// Sustain level in `AMP_ONE` units; `AMP_ONE` means full amplitude.
    pub sustain: i64,
    pub release_ms: u64,
}

impl AdsrParams {
    /// Well-formed parameters: the sustain level is a fraction in
    /// `[0, AMP_ONE]` and each duration is small enough that its length in
    /// samples fits comfortably in a machine word.
    pub open spec fn wf(self) -> bool {
        &&& self.attack_ms <= 1_000_000
        &&& self.decay_ms <= 1_000_000
        &&& self.release_ms <= 1_000_000
        &&& 0 <= self.sustain <= AMP_ONE
    }
}

/// The externally visible envelope phase.
#[derive(Clone, Copy, Debug, PartialEq, Eq, Structural)]
pub enum EnvPhase {
    Attack,
    Decay,
    Sustain,
    Release,
    Silent,
}

/// A duration in milliseconds converted to a tick count, clamped to at
/// least one tick so that no step divides by zero.
pub open spec fn spec_duration_samples(ms: int) -> int {
    let s = ms * (TICKS_PER_MS as int);
    if s < 1 {
        1int
    } else {
        s
    }
}

/// Exact tick count of a duration, clamped to at least one.
pub fn duration_samples(ms: u64) -> (s: u64)
    requires
        ms <= 1_000_000,
    ensures
        s == spec_duration_samples(ms as int),
        1 <= s,
{
    let raw: u64 = ms * TICKS_PER_MS;
    if raw < 1 {
        1
    } else {
        raw
    }
}

/// Per-voice ADSR state machine. All fields are plain values; `inv` ties the
/// carried amplitude to the closed form determined by the tick counter.
#[derive(Clone, Copy, Debug)]
pub struct Envelope {
    /// Attack duration in ticks, at least one.
    pub attack_samples: u64,
    /// Decay duration in ticks, at least one.
    pub decay_samples: u64,
    /// Release duration in ticks, at least one.
    pub release_samples: u64,
    /// Sustain level in `AMP_ONE` units.
    pub sustain: i64,
    /// Ticks elapsed since the envelope started.
    pub ticks: u64,
    /// Current amplitude multiplier in `AMP_ONE` units.
    pub amplitude: i64,
    /// Set when release has been requested; never cleared.
    pub releasing: bool,
    /// Set by the first tick that observes `releasing`.
    pub release_marked: bool,
    /// Tick count at the moment the release was marked.
    pub release_start: u64,
    /// Terminal: the release ramp has run its course.
    pub stopped: bool,
}

impl Envelope {
    /// Amplitude gained per attack tick.
    pub open spec fn attack_step(self) -> int {
        (AMP_ONE as int) / (self.attack_samples as int)
    }

    /// Amplitude lost per decay tick.
    pub open spec fn decay_step(self) -> int {
        ((AMP_ONE as int) - self.sustain) / (self.decay_samples as int)
    }

    /// Amplitude lost per release tick.
    pub open spec fn release_step(self) -> int {
        (self.sustain as int) / (self.release_samples as int)
    }

    /// How many attack increments have been applied after `t` ticks.
    pub open spec fn attack_count(self, t: int) -> int {
        if t <= self.attack_samples - 1 {
            t
        } else {
            self.attack_samples - 1
        }
    }

    /// How many decay decrements have been applied after `t` ticks.
    pub open spec fn decay_count(self, t: int) -> int {
        if t <= self.attack_samples - 1 {
            0int
        } else if t - self.attack_samples + 1 <= self.decay_samples {
            t - self.attack_samples + 1
        } else {
            self.decay_samples as int
        }
    }

    /// The amplitude after `t` ticks with no release in effect: the attack
    /// increments minus the decay decrements.
    pub open spec fn plain_amp(self, t: int) -> int {
        self.attack_count(t) * self.attack_step() - self.decay_count(t) * self.decay_step()
    }

    /// How many release decrements have been applied since the release was
    /// marked.
    pub open spec fn release_count(self) -> int {
        let elapsed = self.ticks - self.release_start;
        if elapsed <= self.release_samples - 1 {
            elapsed
        } else {
            self.release_samples - 1
        }
    }

    /// Well-formedness: durations are at least one tick, the sustain level
    /// is a fraction, and the amplitude equals the closed form that the tick
    /// counter determines.
    pub open spec fn inv(self) -> bool {
        &&& 1 <= self.attack_samples
        &&& 1 <= self.decay_samples
        &&& 1 <= self.release_samples
        &&& 0 <= self.sustain <= AMP_ONE
        &&& self.release_marked ==> self.releasing
        &&& self.release_marked ==> 1 <= self.release_start <= self.ticks
        &&& !self.release_marked ==> self.amplitude == self.plain_amp(self.ticks as int)
        &&& self.release_marked ==> self.amplitude == self.plain_amp(
            self.release_start - 1,
        ) - self.release_count() * self.release_step()
        &&& self.release_marked && !self.stopped ==> self.ticks - self.release_start
            < self.release_samples
        &&& -2 * (AMP_ONE as int) <= self.amplitude <= AMP_ONE as int
    }

    /// The phase the next tick will act in.
    pub open spec fn spec_phase(self) -> EnvPhase {
        if self.stopped {
            EnvPhase::Silent
        } else if self.releasing {
            EnvPhase::Release
        } else if self.ticks + 1 < self.attack_samples {
            EnvPhase::Attack
        } else if self.ticks + 1 - self.attack_samples < self.decay_samples {
            EnvPhase::Decay
        } else {
            EnvPhase::Sustain
        }
    }

    /// One envelope tick as a mathematical step function; `tick` performs
    /// exactly this transformation.
    pub open spec fn spec_tick(self) -> Envelope {
        if self.stopped {
            self
        } else if self.ticks == u64::MAX {
            // The counter is exhausted; fall silent rather than wrap.
            Envelope { stopped: true, ..self }
        } else {
            let t = (self.ticks + 1) as u64;
            if self.releasing {
                if !self.release_marked {
                    Envelope { ticks: t, release_marked: true, release_start: t, ..self }
                } else if t - self.release_start < self.release_samples {
                    Envelope {
                        ticks: t,
                        amplitude: (self.amplitude - self.release_step()) as i64,
                        ..self
                    }
                } else {
                    Envelope { ticks: t, stopped: true, ..self }
                }
            } else if t < self.attack_samples {
                Envelope { ticks: t, amplitude: (self.amplitude + self.attack_step()) as i64, ..self }
            } else if t - self.attack_samples < self.decay_samples {
                Envelope { ticks: t, amplitude: (self.amplitude - self.decay_step()) as i64, ..self }
            } else {
                Envelope { ticks: t, ..self }
            }
        }
    }

    /// A fresh envelope in the attack phase with amplitude zero.
    pub open spec fn spec_new_env(params: AdsrParams) -> Envelope {
        Envelope {
            attack_samples: spec_duration_samples(params.attack_ms as int) as u64,
            decay_samples: spec_duration_samples(params.decay_ms as int) as u64,
            release_samples: spec_duration_samples(params.release_ms as int) as u64,
            sustain: params.sustain,
            ticks: 0,
            amplitude: 0,
            releasing: false,
            release_marked: false,
            release_start: 0,
            stopped: false,
        }
    }

    /// A fresh envelope in the attack phase with amplitude zero.
    pub fn new(params: AdsrParams) -> (e: Envelope)
        requires
            params.wf(),
        ensures
            e.inv(),
            e == Envelope::spec_new_env(params),
            e.attack_samples == spec_duration_samples(params.attack_ms as int),
            e.decay_samples == spec_duration_samples(params.decay_ms as int),
            e.release_samples == spec_duration_samples(params.release_ms as int),
            e.sustain == params.sustain,
            e.ticks == 0,
            e.amplitude == 0,
            !e.releasing,
            !e.release_marked,
            !e.stopped,
    {
        let e = Envelope {
            attack_samples: duration_samples(params.attack_ms),
            decay_samples: duration_samples(params.decay_ms),
            release_samples: duration_samples(params.release_ms),
            sustain: params.sustain,
            ticks: 0,
            amplitude: 0,
            releasing: false,
            release_marked: false,
            release_start: 0,
            stopped: false,
        };
        proof {
            assert(e.attack_count(0) == 0);
            assert(e.decay_count(0) == 0);
            assert(e.plain_amp(0) == 0);
        }
        e
    }

    /// Requests the release ramp; takes effect on the next tick. Idempotent,
    /// and the other fields are untouched.
    pub fn release(&mut self)
        requires
            old(self).inv(),
        ensures
            final(self).inv(),
            *final(self) == (Envelope { releasing: true, ..*old(self) }),
    {
        self.releasing = true;
    }

    /// Advances the state machine by one tick: exactly `spec_tick`.
    pub fn tick(&mut self)
        requires
            old(self).inv(),
        ensures
            *final(self) == old(self).spec_tick(),
            final(self).inv(),
    {
        proof {
            lemma_tick_preserves_inv(*old(self));
            lemma_amp_in_i64(*old(self));
        }
        if self.stopped {
            return;
        }
        if self.ticks == u64::MAX {
            self.stopped = true;
            return;
        }
        self.ticks = self.ticks + 1;
        if self.releasing {
            if !self.release_marked {
                self.release_marked = true;
                self.release_start = self.ticks;
            } else if self.ticks - self.release_start < self.release_samples {
                self.amplitude = self.amplitude - release_step_of(self.sustain, self.release_samples);
            } else {
                self.stopped = true;
            }
        } else if self.ticks < self.attack_samples {
            self.amplitude = self.amplitude + attack_step_of(self.attack_samples);
        } else if self.ticks - self.attack_samples < self.decay_samples {
            self.amplitude = self.amplitude - decay_step_of(self.sustain, self.decay_samples);
        }
    }

    /// The phase the next tick will act in.
    pub fn phase(&self) -> (ph: EnvPhase)
        requires
            self.inv(),
        ensures
            ph == self.spec_phase(),
    {
        if self.stopped {
            EnvPhase::Silent
        } else if self.releasing {
            EnvPhase::Release
        } else if self.ticks < self.attack_samples - 1 {
            EnvPhase::Attack
        } else if self.ticks - (self.attack_samples - 1) < self.decay_samples {
            EnvPhase::Decay
        } else {
            EnvPhase::Sustain
        }
    }
}

/// Exact attack step.
fn attack_step_of(attack_samples: u64) -> (s: i64)
    requires
        1 <= attack_samples,
    ensures
        s == (AMP_ONE as int) / (attack_samples as int),
        0 <= s <= AMP_ONE,
{
    proof {
        lemma_div_pos_is_pos(AMP_ONE as int, attack_samples as int);
        lemma_div_nonincreasing(AMP_ONE as int, attack_samples as int);
    }
    ((AMP_ONE as u64) / attack_samples) as i64
}

/// Exact decay step.
fn decay_step_of(sustain: i64, decay_samples: u64) -> (s: i64)
    requires
        1 <= decay_samples,
        0 <= sustain <= AMP_ONE,
    ensures
        s == ((AMP_ONE as int) - sustain) / (decay_samples as int),
        0 <= s <= AMP_ONE,
{
    proof {
        lemma_div_pos_is_pos(AMP_ONE as int - sustain, decay_samples as int);
        lemma_div_nonincreasing(AMP_ONE as int - sustain, decay_samples as int);
    }
    (((AMP_ONE - sustain) as u64) / decay_samples) as i64
}

/// Exact release step.
fn release_step_of(sustain: i64, release_samples: u64) -> (s: i64)
    requires
        1 <= release_samples,
        0 <= sustain <= AMP_ONE,
    ensures
        s == (sustain as int) / (release_samples as int),
        0 <= s <= AMP_ONE,
{
    proof {
        lemma_div_pos_is_pos(sustain as int, release_samples as int);
        lemma_div_nonincreasing(sustain as int, release_samples as int);
    }
    ((sustain as u64) / release_samples) as i64
}

/// For `0 <= c <= d` and `0 <= x`, the accumulated steps `c * (x / d)` stay
/// within `[0, x]`.
proof fn lemma_step_total(c: int, d: int, x: int)
    requires
        0 <= c <= d,
        1 <= d,
        0 <= x,
    ensures
        0 <= c * (x / d) <= x,
{
    let q = x / d;
    lemma_div_pos_is_pos(x, d);
    lemma_mul_nonnegative(c, q);
    lemma_mul_inequality(c, d, q);
    lemma_fundamental_div_mod(x, d);
    lemma_mod_bound(x, d);
}

/// The closed-form amplitude is always within `[-AMP_ONE, AMP_ONE]`.
proof fn lemma_plain_amp_bounds(e: Envelope, t: int)
    requires
        1 <= e.attack_samples,
        1 <= e.decay_samples,
        0 <= e.sustain <= AMP_ONE,
        0 <= t,
    ensures
        -(AMP_ONE as int) <= e.plain_amp(t) <= AMP_ONE as int,
        0 <= e.attack_count(t) * e.attack_step() <= AMP_ONE as int,
        0 <= e.decay_count(t) * e.decay_step() <= (AMP_ONE as int) - e.sustain,
{
    lemma_step_total(e.attack_count(t), e.attack_samples as int, AMP_ONE as int);
    lemma_step_total(e.decay_count(t), e.decay_samples as int, (AMP_ONE as int) - e.sustain);
}

/// The accumulated release decrements stay within `[0, sustain]`.
proof fn lemma_release_total_bounds(e: Envelope)
    requires
        1 <= e.release_samples,
        0 <= e.sustain <= AMP_ONE,
        e.release_marked ==> e.release_start <= e.ticks,
    ensures
        e.release_marked ==> 0 <= e.release_count() * e.release_step() <= e.sustain,
{
    if e.release_marked {
        lemma_step_total(e.release_count(), e.release_samples as int, e.sustain as int);
    }
}

/// An envelope's amplitude, and the amplitude one step away from it, fit in
/// a machine word.
proof fn lemma_amp_in_i64(e: Envelope)
    requires
        e.inv(),
    ensures
        -3 * (AMP_ONE as int) <= e.amplitude - e.release_step() <= AMP_ONE as int,
        -3 * (AMP_ONE as int) <= e.amplitude - e.decay_step() <= AMP_ONE as int,
        -2 * (AMP_ONE as int) <= e.amplitude + e.attack_step() <= 2 * (AMP_ONE as int),
{
    lemma_div_pos_is_pos(AMP_ONE as int, e.attack_samples as int);
    lemma_div_nonincreasing(AMP_ONE as int, e.attack_samples as int);
    lemma_div_pos_is_pos(AMP_ONE as int - e.sustain, e.decay_samples as int);
    lemma_div_nonincreasing(AMP_ONE as int - e.sustain, e.decay_samples as int);
    lemma_div_pos_is_pos(e.sustain as int, e.release_samples as int);
    lemma_div_nonincreasing(e.sustain as int, e.release_samples as int);
}

/// The envelope after `k` consecutive ticks.
pub open spec fn spec_run(e: Envelope, k: nat) -> Envelope
    decreases k,
{
    if k == 0 {
        e
    } else {
        spec_run(e.spec_tick(), (k - 1) as nat)
    }
}

/// A stopped envelope never changes again.
pub proof fn lemma_run_stopped(e: Envelope, k: nat)
    requires
        e.stopped,
    ensures
        spec_run(e, k) == e,
    decreases k,
{
    if k > 0 {
        assert(e.spec_tick() == e);
        lemma_run_stopped(e.spec_tick(), (k - 1) as nat);
    }
}

/// Law of the attack ramp: as long as the attack phase lasts, every tick
/// raises the amplitude by exactly `AMP_ONE / attack_samples`, so after `k`
/// ticks the amplitude has risen by `k` such steps and nothing else about
/// the envelope has moved.
pub proof fn lemma_attack_ramp(e: Envelope, k: nat)
    requires
        e.inv(),
        !e.releasing,
        !e.release_marked,
        !e.stopped,
        e.ticks + k <= e.attack_samples - 1,
    ensures
        ({
            let r = spec_run(e, k);
            &&& r.inv()
            &&& r.ticks == e.ticks + k
            &&& r.amplitude == e.amplitude + k * e.attack_step()
            &&& !r.releasing
            &&& !r.release_marked
            &&& !r.stopped
            &&& r.attack_samples == e.attack_samples
            &&& r.decay_samples == e.decay_samples
            &&& r.release_samples == e.release_samples
            &&& r.sustain == e.sustain
        }),
    decreases k,
{
    if k == 0 {
        assert(0 * e.attack_step() == 0) by (nonlinear_arith);
    } else {
        let e1 = e.spec_tick();
        lemma_tick_preserves_inv(e);
        lemma_amp_in_i64(e);
        assert(e1.ticks == e.ticks + 1);
        assert(e1.amplitude == e.amplitude + e.attack_step());
        lemma_attack_ramp(e1, (k - 1) as nat);
        let s = e.attack_step();
        assert(e.amplitude + s + (k - 1) * s == e.amplitude + k * s) by (nonlinear_arith);
    }
}

/// Law of release termination, for an envelope whose release is already
/// marked: the ramp stops within the remaining release ticks.
proof fn lemma_release_marked_completes(e: Envelope, k: nat)
    requires
        e.inv(),
        e.releasing,
        e.release_marked,
        !e.stopped,
        e.release_samples - (e.ticks - e.release_start) <= k,
        e.ticks + k <= u64::MAX,
    ensures
        spec_run(e, k).stopped,
    decreases k,
{
    let e1 = e.spec_tick();
    lemma_tick_preserves_inv(e);
    if e1.stopped {
        lemma_run_stopped(e1, (k - 1) as nat);
    } else {
        lemma_release_marked_completes(e1, (k - 1) as nat);
    }
}

/// Law of release termination (the voice frees its slot within the release
/// duration, give or take the tick that marks the release): once release has
/// been requested, at most `release_samples + 1` further ticks leave the
/// envelope stopped.
pub proof fn lemma_release_completes(e: Envelope, k: nat)
    requires
        e.inv(),
        e.releasing,
        e.release_samples + 1 <= k,
        e.ticks + k <= u64::MAX,
    ensures
        spec_run(e, k).stopped,
    decreases k,
{
    if e.stopped {
        lemma_run_stopped(e, k);
    } else if !e.release_marked {
        let e1 = e.spec_tick();
        lemma_tick_preserves_inv(e);
        if e1.stopped {
            lemma_run_stopped(e1, (k - 1) as nat);
        } else {
            lemma_release_marked_completes(e1, (k - 1) as nat);
        }
    } else {
        lemma_release_marked_completes(e, k);
    }
}

/// `spec_tick` preserves the invariant.
pub proof fn lemma_tick_preserves_inv(e: Envelope)
    requires
        e.inv(),
    ensures
        e.spec_tick().inv(),
{
    let e2 = e.spec_tick();
    if e.stopped || e.ticks == u64::MAX {
        lemma_plain_amp_bounds(e, e.ticks as int);
        lemma_release_total_bounds(e);
    } else {
        let t = e.ticks + 1;
        lemma_amp_in_i64(e);
        if e.releasing {
            if !e.release_marked {
                assert(e2.release_count() == 0);
                assert(e2.release_count() * e2.release_step() == 0) by (nonlinear_arith)
                    requires
                        e2.release_count() == 0;
                lemma_plain_amp_bounds(e, e.ticks as int);
            } else if t - e.release_start < e.release_samples {
                let c = e.release_count();
                let s = e.release_step();
                assert(e2.release_count() == c + 1);
                assert((c + 1) * s == c * s + s) by (nonlinear_arith);
                lemma_plain_amp_bounds(e, e.release_start - 1);
                lemma_release_total_bounds(e2);
            } else {
                assert(e2.release_count() == e.release_count());
                lemma_plain_amp_bounds(e, e.release_start - 1);
                lemma_release_total_bounds(e2);
            }
        } else if t < e.attack_samples {
            let c = e.attack_count(e.ticks as int);
            let s = e.attack_step();
            assert(e2.attack_count(t as int) == c + 1);
            assert(e2.decay_count(t as int) == 0);
            assert((c + 1) * s == c * s + s) by (nonlinear_arith);
            assert(0 * e.decay_step() == 0) by (nonlinear_arith);
            lemma_plain_amp_bounds(e2, t as int);
        } else if t - e.attack_samples < e.decay_samples {
            let c = e.decay_count(e.ticks as int);
            let s = e.decay_step();
            assert(e2.attack_count(t as int) == e.attack_count(e.ticks as int));
            assert(e2.decay_count(t as int) == c + 1);
            assert((c + 1) * s == c * s + s) by (nonlinear_arith);
            lemma_plain_amp_bounds(e2, t as int);
        } else {
            assert(e2.attack_count(t as int) == e.attack_count(e.ticks as int));
            assert(e2.decay_count(t as int) == e.decay_count(e.ticks as int));
            lemma_plain_amp_bounds(e2, t as int);
        }
    }
}

} // verus!
