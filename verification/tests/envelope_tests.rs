use polysynth::envelope::{duration_samples, AdsrParams, EnvPhase, Envelope};
use polysynth::AMP_ONE;

fn default_params() -> AdsrParams {
    AdsrParams { attack_ms: 10, decay_ms: 10, sustain: AMP_ONE, release_ms: 10 }
}

#[test]
fn duration_samples_scales_and_clamps() {
    assert_eq!(duration_samples(10), 440);
    assert_eq!(duration_samples(1), 44);
    // A zero-length duration is clamped to one sample so that no step
    // divides by zero.
    assert_eq!(duration_samples(0), 1);
}

#[test]
fn attack_completes_after_attack_duration() {
    // attack = 10 ms at the 44000 Hz tick base: 440 ticks. The amplitude
    // climbs by 1/440 (in fixed point: 2272 units) per tick and is within
    // rounding of 1.0 when the attack duration has elapsed.
    let mut e = Envelope::new(default_params());
    assert_eq!(e.amplitude, 0);
    assert_eq!(e.phase(), EnvPhase::Attack);
    for _ in 0..440 {
        e.tick();
    }
    assert_eq!(e.amplitude, 439 * 2272);
    assert!(e.amplitude >= 990_000 && e.amplitude <= AMP_ONE);
}

#[test]
fn full_sustain_makes_decay_invisible() {
    // With sustain = 1.0 the decay step is zero: after the attack the
    // amplitude simply holds.
    let mut e = Envelope::new(default_params());
    for _ in 0..440 {
        e.tick();
    }
    let peak = e.amplitude;
    for _ in 0..2000 {
        e.tick();
    }
    assert_eq!(e.amplitude, peak);
    assert_eq!(e.phase(), EnvPhase::Sustain);
    assert!(!e.stopped);
}

#[test]
fn release_reaches_zero_and_stops_within_release_duration() {
    let mut e = Envelope::new(default_params());
    for _ in 0..440 {
        e.tick();
    }
    e.release();
    assert_eq!(e.phase(), EnvPhase::Release);
    // One tick marks the release, 439 ticks ramp down, one more stops:
    // release duration (440 ticks) plus one.
    for _ in 0..441 {
        e.tick();
    }
    assert!(e.stopped);
    assert_eq!(e.phase(), EnvPhase::Silent);
    assert_eq!(e.amplitude, 0);
}

#[test]
fn stopped_envelope_stays_silent() {
    let mut e = Envelope::new(default_params());
    e.release();
    for _ in 0..442 {
        e.tick();
    }
    assert!(e.stopped);
    let amp = e.amplitude;
    for _ in 0..100 {
        e.tick();
    }
    assert!(e.stopped);
    assert_eq!(e.amplitude, amp);
}

#[test]
fn release_mid_attack_undershoots_zero() {
    // The release step is derived from the sustain level no matter what
    // amplitude the attack actually reached; releasing early therefore
    // ramps below zero. This mirrors the engine's deliberate behavior.
    let params = AdsrParams { attack_ms: 100, decay_ms: 10, sustain: AMP_ONE, release_ms: 10 };
    let mut e = Envelope::new(params);
    for _ in 0..10 {
        e.tick();
    }
    assert_eq!(e.amplitude, 10 * (AMP_ONE / 4400));
    e.release();
    for _ in 0..100 {
        e.tick();
    }
    assert!(e.amplitude < 0);
}

#[test]
fn decay_ramps_toward_sustain_level() {
    let params = AdsrParams { attack_ms: 10, decay_ms: 10, sustain: AMP_ONE / 2, release_ms: 10 };
    let mut e = Envelope::new(params);
    // The 440th tick is already the first decay tick: decay step =
    // (1.0 - 0.5) / 440 = 1136 units, applied 440 times in all.
    for _ in 0..440 {
        e.tick();
    }
    assert_eq!(e.amplitude, 439 * 2272 - 1136);
    assert_eq!(e.phase(), EnvPhase::Decay);
    for _ in 0..440 {
        e.tick();
    }
    assert_eq!(e.amplitude, 439 * 2272 - 440 * 1136);
    assert_eq!(e.phase(), EnvPhase::Sustain);
}

#[test]
fn zero_length_configuration_is_guarded() {
    // All durations zero: each clamps to one sample; the first tick is
    // already past the one-sample attack and applies the one-sample decay
    // in full. No division by zero, no panic.
    let params = AdsrParams { attack_ms: 0, decay_ms: 0, sustain: 0, release_ms: 0 };
    let mut e = Envelope::new(params);
    assert_eq!(e.attack_samples, 1);
    assert_eq!(e.decay_samples, 1);
    assert_eq!(e.release_samples, 1);
    e.tick();
    assert_eq!(e.amplitude, -AMP_ONE);
    // Release of the degenerate envelope stops after its two ticks.
    e.release();
    e.tick();
    e.tick();
    assert!(e.stopped);
}

#[test]
fn release_is_idempotent() {
    let mut e = Envelope::new(default_params());
    e.release();
    e.tick();
    let marked_at = e.release_start;
    e.release();
    e.tick();
    assert_eq!(e.release_start, marked_at);
}
