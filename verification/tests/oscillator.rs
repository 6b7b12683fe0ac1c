use rust_synth::{RustSynth, Waveform, HALF_SCALE, SCALE};

fn buffer(len: usize) -> Vec<i64> {
    vec![7; len]
}

#[test]
fn fresh_instance_is_silent_sine() {
    let s = RustSynth::new(44_100 * SCALE);
    assert!(s.waveform == Waveform::Sine);
    assert_eq!(s.phase, 0);
    assert_eq!(s.frequency, 0);
    assert_eq!(s.duty_cycle, HALF_SCALE);
    assert_eq!(s.sample_rate, 44_100 * SCALE);
    assert_eq!(s.harmonics, vec![SCALE]);
}

#[test]
fn silent_process_fills_zeros_and_keeps_phase() {
    let mut s = RustSynth::new(44_100 * SCALE);
    let mut buf = buffer(4);
    s.process(&mut buf);
    assert_eq!(buf, vec![0, 0, 0, 0]);
    assert_eq!(s.phase, 0);
}

#[test]
fn note_off_silences_without_phase_reset() {
    let mut s = RustSynth::new(4 * SCALE);
    s.note_on(SCALE);
    let mut buf = buffer(3);
    s.process(&mut buf);
    let phase_before = s.phase;
    assert_eq!(phase_before, 750_000);
    s.note_off();
    assert_eq!(s.frequency, 0);
    assert_eq!(s.phase, phase_before);
    let mut buf = buffer(5);
    s.process(&mut buf);
    assert_eq!(buf, vec![0, 0, 0, 0, 0]);
    assert_eq!(s.phase, phase_before);
}

#[test]
fn note_on_resets_phase_from_anywhere() {
    let mut s = RustSynth::new(4 * SCALE);
    s.note_on(SCALE);
    let mut buf = buffer(3);
    s.process(&mut buf);
    assert_eq!(s.phase, 750_000);
    s.note_on(2 * SCALE);
    assert_eq!(s.phase, 0);
    assert_eq!(s.frequency, 2 * SCALE);
    s.note_on(0);
    assert_eq!(s.phase, 0);
    assert_eq!(s.frequency, 0);
}

#[test]
fn square_wave_four_quarters() {
    let mut s = RustSynth::new(4 * SCALE);
    s.set_waveform(Waveform::Square);
    s.note_on(SCALE);
    let mut buf = buffer(4);
    s.process(&mut buf);
    assert_eq!(buf, vec![SCALE, SCALE, -SCALE, -SCALE]);
    assert_eq!(s.phase, 0);
}

#[test]
fn pulse_equals_square_sample_for_sample() {
    let mut square = RustSynth::new(8 * SCALE);
    square.set_waveform(Waveform::Square);
    square.set_duty_cycle(300_000);
    square.note_on(SCALE);
    let mut pulse = RustSynth::new(8 * SCALE);
    pulse.set_waveform(Waveform::Pulse);
    pulse.set_duty_cycle(300_000);
    pulse.note_on(SCALE);
    let mut a = buffer(8);
    let mut b = buffer(8);
    square.process(&mut a);
    pulse.process(&mut b);
    assert_eq!(a, b);
    assert_eq!(square.phase, pulse.phase);
}

#[test]
fn sawtooth_ramps_over_one_cycle() {
    let mut s = RustSynth::new(4 * SCALE);
    s.set_waveform(Waveform::Sawtooth);
    s.note_on(SCALE);
    let mut buf = buffer(4);
    s.process(&mut buf);
    assert_eq!(buf, vec![-SCALE, -HALF_SCALE, 0, HALF_SCALE]);
}

#[test]
fn triangle_folds_around_midpoint() {
    let mut s = RustSynth::new(4 * SCALE);
    s.set_waveform(Waveform::Triangle);
    s.note_on(SCALE);
    let mut buf = buffer(4);
    s.process(&mut buf);
    assert_eq!(buf, vec![SCALE, 0, -SCALE, 0]);
}

#[test]
fn sine_quarter_points() {
    let mut s = RustSynth::new(4 * SCALE);
    s.note_on(SCALE);
    let mut buf = buffer(4);
    s.process(&mut buf);
    assert_eq!(buf, vec![0, SCALE, 0, -SCALE]);
}

#[test]
fn degenerate_duty_cycle_is_constant() {
    let mut s = RustSynth::new(4 * SCALE);
    s.set_waveform(Waveform::Square);
    s.set_duty_cycle(0);
    s.note_on(SCALE);
    let mut buf = buffer(4);
    s.process(&mut buf);
    assert_eq!(buf, vec![-SCALE; 4]);
    s.set_duty_cycle(SCALE);
    let mut buf = buffer(4);
    s.process(&mut buf);
    assert_eq!(buf, vec![SCALE; 4]);
}

#[test]
fn negative_frequency_sweeps_phase_backwards() {
    let mut s = RustSynth::new(4 * SCALE);
    s.set_waveform(Waveform::Sawtooth);
    s.note_on(-SCALE);
    let mut buf = buffer(4);
    s.process(&mut buf);
    // Phases 0, 0.75, 0.5, 0.25: the sweep runs in reverse and the phase
    // still stays inside [0, SCALE).
    assert_eq!(buf, vec![-SCALE, HALF_SCALE, 0, -HALF_SCALE]);
    assert_eq!(s.phase, 0);
}

#[test]
fn phase_is_continuous_across_blocks() {
    let mut split = RustSynth::new(8 * SCALE);
    split.set_waveform(Waveform::Sawtooth);
    split.note_on(SCALE);
    let mut first = buffer(3);
    let mut second = buffer(3);
    split.process(&mut first);
    split.process(&mut second);
    let mut whole = RustSynth::new(8 * SCALE);
    whole.set_waveform(Waveform::Sawtooth);
    whole.note_on(SCALE);
    let mut all = buffer(6);
    whole.process(&mut all);
    let mut joined = first.clone();
    joined.extend_from_slice(&second);
    assert_eq!(joined, all);
    // After 6 samples of 1/8 cycle each the phase is 6/8 of a cycle.
    assert_eq!(split.phase, 750_000);
    assert_eq!(whole.phase, split.phase);
}

#[test]
fn phase_stays_inside_one_cycle_over_many_blocks() {
    // A concert pitch at a standard rate: the increment (9977 ticks) does
    // not divide the cycle evenly, so the phase walks through odd values.
    let mut s = RustSynth::new(44_100 * SCALE);
    s.set_waveform(Waveform::Triangle);
    s.note_on(440 * SCALE);
    let mut expected: i64 = 0;
    for _ in 0..100 {
        let mut buf = buffer(64);
        s.process(&mut buf);
        expected = (expected + 64 * 9_977) % SCALE;
        assert!(0 <= s.phase && s.phase < SCALE);
        assert_eq!(s.phase, expected);
    }
}

#[test]
fn buffer_length_may_vary_between_calls() {
    let mut s = RustSynth::new(8 * SCALE);
    s.note_on(SCALE);
    let mut buf = buffer(2);
    s.process(&mut buf);
    assert_eq!(s.phase, 250_000);
    let mut buf = buffer(0);
    s.process(&mut buf);
    assert_eq!(buf, Vec::<i64>::new());
    assert_eq!(s.phase, 250_000);
    let mut buf = buffer(5);
    s.process(&mut buf);
    assert_eq!(s.phase, 875_000);
}
