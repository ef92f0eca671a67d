use polysynth::osc::{period_of, saw_sample, square_sample, triangle_sample, Oscillator, WaveType};
use polysynth::AMP_ONE;

#[test]
fn period_of_ordinary_frequency() {
    // 1000 Hz at 44 kHz: 44 samples per period.
    assert_eq!(period_of(1_000_000), 44);
    // 440 Hz: 100 samples per period.
    assert_eq!(period_of(440_000), 100);
}

#[test]
fn period_clamps_degenerate_frequencies() {
    // Zero and negative frequencies are treated as the minimum.
    assert_eq!(period_of(0), 44_000_000);
    assert_eq!(period_of(-5), 44_000_000);
    // A frequency above the sample rate clamps to a one-sample period.
    assert_eq!(period_of(88_000_000), 1);
}

#[test]
fn square_levels_and_half_period_transitions() {
    let mut osc = Oscillator::new(1_000_000, WaveType::Square);
    let mut samples = Vec::new();
    for _ in 0..44 {
        samples.push(osc.next_sample().unwrap());
    }
    // Samples n = 1..=44 with period 44: high on n % 44 <= 22.
    for (k, s) in samples.iter().enumerate() {
        let n = (k + 1) as u64;
        let expected = if n % 44 <= 22 { AMP_ONE } else { -AMP_ONE };
        assert_eq!(*s, expected, "sample {}", n);
    }
    // Exactly one transition per half-period: high->low after n = 22,
    // low->high after n = 43.
    let mut transitions = Vec::new();
    for k in 1..samples.len() {
        if samples[k] != samples[k - 1] {
            transitions.push(k + 1);
        }
    }
    assert_eq!(transitions, vec![23, 44]);
}

#[test]
fn square_sample_exact_values() {
    assert_eq!(square_sample(1, 44), AMP_ONE);
    assert_eq!(square_sample(22, 44), AMP_ONE);
    assert_eq!(square_sample(23, 44), -AMP_ONE);
    assert_eq!(square_sample(43, 44), -AMP_ONE);
    assert_eq!(square_sample(44, 44), AMP_ONE);
}

#[test]
fn saw_ramp_values_and_range() {
    // Period 44: the ramp climbs from 0, wraps at the half period to the
    // bottom, and climbs back to 0.
    assert_eq!(saw_sample(44, 44), 0);
    assert_eq!(saw_sample(1, 44), 45_454);
    assert_eq!(saw_sample(11, 44), 500_000);
    assert_eq!(saw_sample(22, 44), -1_000_000);
    assert_eq!(saw_sample(33, 44), -500_000);
    for n in 0..200 {
        let s = saw_sample(n, 44);
        assert!(-AMP_ONE <= s && s <= AMP_ONE, "saw out of range at {}", n);
    }
}

#[test]
fn triangle_fold_values_and_range() {
    assert_eq!(triangle_sample(11, 44), 0);
    assert_eq!(triangle_sample(22, 44), AMP_ONE);
    assert_eq!(triangle_sample(33, 44), 0);
    assert_eq!(triangle_sample(44, 44), -AMP_ONE);
    for n in 0..200 {
        let s = triangle_sample(n, 44);
        assert!(-AMP_ONE <= s && s <= AMP_ONE, "triangle out of range at {}", n);
    }
}

#[test]
fn oscillator_retains_last_saw_value() {
    let mut osc = Oscillator::new(1_000_000, WaveType::Saw);
    let s = osc.next_sample().unwrap();
    assert_eq!(osc.last_value, s);
    let s2 = osc.next_sample().unwrap();
    assert_eq!(osc.last_value, s2);
}

#[test]
fn sine_defers_evaluation_but_advances_phase() {
    let mut osc = Oscillator::new(440_000, WaveType::Sine);
    assert_eq!(osc.num_sample, 0);
    assert_eq!(osc.next_sample(), None);
    assert_eq!(osc.num_sample, 1);
    assert_eq!(osc.next_sample(), None);
    assert_eq!(osc.num_sample, 2);
    // The caller evaluates sin(2*pi*f*n/rate) from these fields; at n = 2
    // and 440 Hz the phase argument is well-defined and the envelope is
    // applied outside.
    let f_hz = osc.freq as f64 / 1000.0;
    let phase = 2.0 * std::f64::consts::PI * f_hz * osc.num_sample as f64 / 44_000.0;
    assert!(phase.sin().abs() <= 1.0);
}

#[test]
fn sine_phase_fields_give_the_formula_value() {
    // The sine amplitude at sample n is sin(2*pi*f*n/sample_rate). The
    // oscillator carries exactly the phase data (f, n) the evaluation
    // needs; walking it for a while, each sample's evaluation from those
    // fields matches the formula applied to the sample index directly.
    let f_hz = 440.0_f64;
    let mut osc = Oscillator::new(440_000, WaveType::Sine);
    for n in 1..=200u64 {
        assert_eq!(osc.next_sample(), None);
        assert_eq!(osc.num_sample, n);
        let from_fields = (2.0 * std::f64::consts::PI * (osc.freq as f64 / 1000.0)
            * osc.num_sample as f64
            / 44_000.0)
            .sin();
        let from_formula = (2.0 * std::f64::consts::PI * f_hz * n as f64 / 44_000.0).sin();
        assert!((from_fields - from_formula).abs() < 1e-12);
        assert!(from_fields.abs() <= 1.0);
    }
}

#[test]
fn frequency_change_takes_effect_on_next_sample() {
    let mut osc = Oscillator::new(1_000_000, WaveType::Square);
    for _ in 0..10 {
        osc.next_sample();
    }
    osc.set_freq(2_000_000);
    // Period is now 22: sample n = 11 has 11 % 22 = 11 <= 11 -> high.
    assert_eq!(osc.next_sample().unwrap(), AMP_ONE);
    assert_eq!(osc.freq, 2_000_000);
}
