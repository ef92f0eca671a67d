use polysynth::control::{
    EdgeDetector, Settings, ADJUST_MAX_MS, PARAM_ATTACK, PARAM_DECAY, PARAM_RELEASE, PARAM_SUSTAIN,
};
use polysynth::events::{decode_event, NoteEvent};
use polysynth::osc::WaveType;
use polysynth::AMP_ONE;

#[test]
fn initial_settings() {
    let s = Settings::new();
    assert_eq!(s.wave, WaveType::Triangle);
    assert_eq!(s.active_param, PARAM_ATTACK);
    assert_eq!(s.adsr.attack_ms, 10);
    assert_eq!(s.adsr.decay_ms, 10);
    assert_eq!(s.adsr.sustain, AMP_ONE);
    assert_eq!(s.adsr.release_ms, 10);
}

#[test]
fn wave_selection() {
    let mut s = Settings::new();
    s.set_wave(WaveType::Square);
    assert_eq!(s.wave, WaveType::Square);
    s.set_wave(WaveType::Sine);
    assert_eq!(s.wave, WaveType::Sine);
}

#[test]
fn adjust_steps_active_duration_within_range() {
    let mut s = Settings::new();
    s.adjust_active(true);
    assert_eq!(s.adsr.attack_ms, 20);
    s.adjust_active(false);
    assert_eq!(s.adsr.attack_ms, 10);
    s.select_param(PARAM_RELEASE);
    s.adjust_active(true);
    assert_eq!(s.adsr.release_ms, 20);
    assert_eq!(s.adsr.attack_ms, 10);
}

#[test]
fn adjust_sticks_below_minimum() {
    // From the 10 ms floor one decrement is still applied (to 0 ms), and
    // the value then sits outside the adjustable range for good.
    let mut s = Settings::new();
    s.adjust_active(false);
    assert_eq!(s.adsr.attack_ms, 0);
    s.adjust_active(true);
    assert_eq!(s.adsr.attack_ms, 0);
    s.adjust_active(false);
    assert_eq!(s.adsr.attack_ms, 0);
}

#[test]
fn adjust_sticks_above_maximum() {
    let mut s = Settings::new();
    s.select_param(PARAM_DECAY);
    // 98 increments carry 10 ms to the 990 ms top of the range; one more
    // is still applied (to 1000 ms), after which the value is stuck.
    for _ in 0..98 {
        s.adjust_active(true);
    }
    assert_eq!(s.adsr.decay_ms, ADJUST_MAX_MS);
    s.adjust_active(true);
    assert_eq!(s.adsr.decay_ms, 1000);
    s.adjust_active(true);
    assert_eq!(s.adsr.decay_ms, 1000);
    s.adjust_active(false);
    assert_eq!(s.adsr.decay_ms, 1000);
}

#[test]
fn sustain_selector_adjusts_nothing() {
    let mut s = Settings::new();
    s.select_param(PARAM_SUSTAIN);
    s.adjust_active(true);
    s.adjust_active(false);
    assert_eq!(s.adsr.sustain, AMP_ONE);
    assert_eq!(s.adsr.attack_ms, 10);
    assert_eq!(s.adsr.decay_ms, 10);
    assert_eq!(s.adsr.release_ms, 10);
}

#[test]
fn edge_detector_fires_on_rising_edges_only() {
    let mut d = EdgeDetector::new();
    assert!(!d.observe(false));
    assert!(d.observe(true));
    assert!(!d.observe(true));
    assert!(!d.observe(false));
    assert!(d.observe(true));
}

#[test]
fn decode_classifies_by_status_range() {
    assert_eq!(decode_event(144, 69, 100), NoteEvent::NoteOn(69));
    assert_eq!(decode_event(159, 42, 0), NoteEvent::NoteOn(42));
    assert_eq!(decode_event(128, 69, 0), NoteEvent::NoteOff(69));
    assert_eq!(decode_event(143, 1, 0), NoteEvent::NoteOff(1));
    assert_eq!(decode_event(176, 64, 127), NoteEvent::ControlChange(64, 127));
    assert_eq!(decode_event(191, 64, 0), NoteEvent::ControlChange(64, 0));
    assert_eq!(decode_event(224, 0, 64), NoteEvent::PitchBend(64));
    assert_eq!(decode_event(239, 0, 127), NoteEvent::PitchBend(127));
    assert_eq!(decode_event(160, 0, 0), NoteEvent::Other);
    assert_eq!(decode_event(250, 0, 0), NoteEvent::Other);
    assert_eq!(decode_event(0, 0, 0), NoteEvent::Other);
}
