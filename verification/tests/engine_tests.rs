use polysynth::engine::{Engine, NoteOnOutcome, SlotEntry};
use polysynth::envelope::AdsrParams;
use polysynth::osc::WaveType;
use polysynth::{AMP_ONE, MAX_POLYPHONY};

/// A note's natural frequency in fixed-point units, as the event layer
/// computes it: 440 * 2^((note - 69) / 12) Hz.
fn freq_units(note: u8) -> i64 {
    (440.0_f64 * 2.0_f64.powf((note as f64 - 69.0) / 12.0) * 1000.0).round() as i64
}

fn params() -> AdsrParams {
    AdsrParams { attack_ms: 10, decay_ms: 10, sustain: AMP_ONE, release_ms: 10 }
}

fn voice_at(e: &Engine, i: usize) -> polysynth::voice::Voice {
    match e.slots[i] {
        SlotEntry::Busy(v) => v,
        SlotEntry::Paused(v) => v,
        SlotEntry::Idle => panic!("slot {} is idle", i),
    }
}

#[test]
fn seventeen_note_ons_fill_sixteen_slots_and_drop_one() {
    let mut e = Engine::new();
    let mut outcomes = Vec::new();
    for n in 0..17u8 {
        outcomes.push(e.note_on(n, freq_units(n), WaveType::Square, params()));
    }
    for i in 0..16usize {
        assert_eq!(outcomes[i], NoteOnOutcome::Started(i));
    }
    assert_eq!(outcomes[16], NoteOnOutcome::Dropped);
    assert_eq!(e.occupied_slots(), MAX_POLYPHONY);
    assert_eq!(e.notes[16], None);
    for n in 0..16usize {
        assert_eq!(e.notes[n], Some(n));
    }
}

#[test]
fn repeated_note_on_retriggers_same_slot() {
    let mut e = Engine::new();
    assert_eq!(e.note_on(69, freq_units(69), WaveType::Saw, params()), NoteOnOutcome::Started(0));
    // Let the voice run a while so the restart is observable.
    for _ in 0..100 {
        e.tick_envelopes();
        e.render_sample(0);
    }
    assert!(voice_at(&e, 0).env.ticks > 0);
    let r = e.note_on(69, freq_units(69), WaveType::Saw, params());
    assert_eq!(r, NoteOnOutcome::Retriggered(0));
    assert_eq!(e.occupied_slots(), 1);
    assert_eq!(e.notes[69], Some(0));
    // The same slot's playback restarted from the beginning.
    let v = voice_at(&e, 0);
    assert_eq!(v.env.ticks, 0);
    assert_eq!(v.env.amplitude, 0);
    assert_eq!(v.osc.num_sample, 0);
}

#[test]
fn note_off_releases_and_frees_slot_after_release_ramp() {
    let mut e = Engine::new();
    e.note_on(69, freq_units(69), WaveType::Triangle, params());
    e.note_off(69);
    assert_eq!(e.notes[69], None);
    // The voice still holds its slot while the release ramp runs.
    assert_eq!(e.occupied_slots(), 1);
    assert!(voice_at(&e, 0).env.releasing);
    // Release is 10 ms = 440 ticks; one tick marks it and one stops it.
    for _ in 0..441 {
        e.tick_envelopes();
    }
    assert_eq!(e.occupied_slots(), 0);
    assert!(matches!(e.slots[0], SlotEntry::Idle));
}

#[test]
fn note_off_for_silent_note_does_nothing() {
    let mut e = Engine::new();
    e.note_off(42);
    assert_eq!(e.occupied_slots(), 0);
    assert_eq!(e.notes[42], None);
}

#[test]
fn sustain_defers_note_off_until_pedal_release() {
    let mut e = Engine::new();
    e.note_on(60, freq_units(60), WaveType::Sine, params());
    e.engage_sustain();
    assert!(e.sustained[60]);
    e.note_off(60);
    // The voice stays alive, unreleased, and even keeps its registry entry.
    assert!(!voice_at(&e, 0).env.releasing);
    assert_eq!(e.notes[60], Some(0));
    for _ in 0..2000 {
        e.tick_envelopes();
    }
    assert_eq!(e.occupied_slots(), 1);
    // Releasing the pedal begins the release.
    e.release_sustain();
    assert!(!e.sustained[60]);
    assert!(voice_at(&e, 0).env.releasing);
    for _ in 0..441 {
        e.tick_envelopes();
    }
    assert_eq!(e.occupied_slots(), 0);
}

#[test]
fn sustain_skips_notes_not_engaged_and_paused_slots() {
    let mut e = Engine::new();
    e.note_on(60, freq_units(60), WaveType::Sine, params());
    e.note_on(64, freq_units(64), WaveType::Sine, params());
    e.pause_slot(1);
    e.engage_sustain();
    assert!(e.sustained[60]);
    // The paused slot's note is not added to the sustained set.
    assert!(!e.sustained[64]);
    // A note started after the pedal went down is not sustained either.
    e.note_on(67, freq_units(67), WaveType::Sine, params());
    e.note_off(67);
    assert_eq!(e.notes[67], None);
    assert!(voice_at(&e, 2).env.releasing);
}

#[test]
fn neutral_pitch_bend_keeps_natural_frequencies() {
    let mut e = Engine::new();
    e.note_on(69, freq_units(69), WaveType::Sine, params());
    e.note_on(60, freq_units(60), WaveType::Sine, params());
    e.pitch_bend(64);
    assert_eq!(voice_at(&e, 0).target_freq, freq_units(69));
    assert_eq!(voice_at(&e, 1).target_freq, freq_units(60));
}

#[test]
fn full_pitch_bend_shifts_targets_up_sixty_three_units() {
    let mut e = Engine::new();
    e.note_on(69, freq_units(69), WaveType::Sine, params());
    e.note_on(60, freq_units(60), WaveType::Sine, params());
    e.pitch_bend(127);
    assert_eq!(voice_at(&e, 0).target_freq, freq_units(69) + 63_000);
    assert_eq!(voice_at(&e, 1).target_freq, freq_units(60) + 63_000);
    // A released (unregistered) voice keeps its target.
    e.note_off(60);
    e.pitch_bend(0);
    assert_eq!(voice_at(&e, 0).target_freq, freq_units(69) - 64_000);
    assert_eq!(voice_at(&e, 1).target_freq, freq_units(60) + 63_000);
}

#[test]
fn smoother_glides_one_hertz_per_tick_to_target() {
    let mut e = Engine::new();
    e.note_on(69, 440_000, WaveType::Sine, params());
    e.pitch_bend(127);
    assert_eq!(voice_at(&e, 0).osc.freq, 440_000);
    e.tick_smoothers();
    assert_eq!(voice_at(&e, 0).osc.freq, 441_000);
    for _ in 0..62 {
        e.tick_smoothers();
    }
    assert_eq!(voice_at(&e, 0).osc.freq, 503_000);
    // At the target the smoother holds without overshooting.
    e.tick_smoothers();
    assert_eq!(voice_at(&e, 0).osc.freq, 503_000);
}

#[test]
fn exhausted_pool_reclaims_paused_slot_first() {
    let mut e = Engine::new();
    for n in 0..16u8 {
        e.note_on(n, freq_units(n), WaveType::Square, params());
    }
    e.pause_slot(5);
    let r = e.note_on(100, freq_units(100), WaveType::Square, params());
    assert_eq!(r, NoteOnOutcome::Started(5));
    // The stolen voice's registry entry is gone; the new note owns the slot.
    assert_eq!(e.notes[5], None);
    assert_eq!(e.notes[100], Some(5));
    assert_eq!(voice_at(&e, 5).note, 100);
}

#[test]
fn render_produces_envelope_scaled_samples() {
    let mut e = Engine::new();
    e.note_on(60, 1_000_000, WaveType::Square, params());
    // Amplitude starts at zero: the first sample is silent.
    assert_eq!(e.render_sample(0), Some(0));
    e.tick_envelopes();
    // One attack tick: amplitude 1/440 of full scale (2272 units); the
    // square's raw sample is at full positive amplitude.
    assert_eq!(e.render_sample(0), Some(2272));
    // An idle slot renders nothing.
    assert_eq!(e.render_sample(3), None);
}

#[test]
fn render_defers_sine_to_caller() {
    let mut e = Engine::new();
    e.note_on(69, 440_000, WaveType::Sine, params());
    assert_eq!(e.render_sample(0), None);
    // The voice's fields carry what the caller needs for the evaluation.
    let v = voice_at(&e, 0);
    assert_eq!(v.osc.num_sample, 1);
    assert_eq!(v.osc.freq, 440_000);
    assert_eq!(v.env.amplitude, 0);
}
