use rust_synth::{RustSynth, Waveform, SCALE};

#[test]
fn empty_harmonics_yield_silence() {
    let mut s = RustSynth::new(4 * SCALE);
    s.set_waveform(Waveform::Additive);
    s.set_harmonics(Vec::new());
    s.note_on(SCALE);
    let mut buf = vec![7; 4];
    s.process(&mut buf);
    assert_eq!(buf, vec![0, 0, 0, 0]);
    // The note is live, so the phase still advanced.
    assert_eq!(s.phase, 0);
}

#[test]
fn normalization_applies_only_above_unit_total() {
    // Two harmonics of 0.6: total 1.2 > 1, so the mix is divided by 1.2.
    // At a quarter cycle the fundamental is 1 and the second harmonic is 0,
    // so the raw mix is 0.6 and the normalized sample is 0.5.
    let mut s = RustSynth::new(4 * SCALE);
    s.set_waveform(Waveform::Additive);
    s.set_harmonics(vec![600_000, 600_000]);
    s.note_on(SCALE);
    let mut buf = vec![7; 2];
    s.process(&mut buf);
    assert_eq!(buf[1], 500_000);

    // Two harmonics of 0.3: total 0.6 <= 1, so the 0.3 mix stays unscaled.
    let mut s = RustSynth::new(4 * SCALE);
    s.set_waveform(Waveform::Additive);
    s.set_harmonics(vec![300_000, 300_000]);
    s.note_on(SCALE);
    let mut buf = vec![7; 2];
    s.process(&mut buf);
    assert_eq!(buf[1], 300_000);
}

#[test]
fn single_full_harmonic_matches_sine() {
    let mut additive = RustSynth::new(8 * SCALE);
    additive.set_waveform(Waveform::Additive);
    additive.set_harmonics(vec![SCALE]);
    additive.note_on(SCALE);
    let mut sine = RustSynth::new(8 * SCALE);
    sine.set_waveform(Waveform::Sine);
    sine.note_on(SCALE);
    let mut a = vec![7; 8];
    let mut b = vec![7; 8];
    additive.process(&mut a);
    sine.process(&mut b);
    assert_eq!(a, b);
}

#[test]
fn non_positive_amplitudes_are_skipped_not_mixed() {
    // At one eighth of a cycle the fundamental is sin(pi/4) and the second
    // harmonic is sin(pi/2) = 1. A negative second amplitude is skipped
    // outright, so the sample is the fundamental alone, unscaled (the
    // unconditional total 1.0 - 0.5 = 0.5 stays below 1).
    let mut s = RustSynth::new(8 * SCALE);
    s.set_waveform(Waveform::Additive);
    s.set_harmonics(vec![SCALE, -500_000]);
    s.note_on(SCALE);
    let mut buf = vec![7; 2];
    s.process(&mut buf);
    assert_eq!(buf[1], 707_107);

    // A zero amplitude is skipped the same way.
    let mut s = RustSynth::new(8 * SCALE);
    s.set_waveform(Waveform::Additive);
    s.set_harmonics(vec![SCALE, 0]);
    s.note_on(SCALE);
    let mut buf = vec![7; 2];
    s.process(&mut buf);
    assert_eq!(buf[1], 707_107);
}

#[test]
fn second_harmonic_runs_twice_as_fast() {
    // A pure second harmonic at a quarter cycle stands at sin(pi) = 0; at
    // an eighth of a cycle it stands at sin(pi/2) = 1.
    let mut s = RustSynth::new(8 * SCALE);
    s.set_waveform(Waveform::Additive);
    s.set_harmonics(vec![0, SCALE]);
    s.note_on(SCALE);
    let mut buf = vec![7; 3];
    s.process(&mut buf);
    assert_eq!(buf[0], 0);
    assert_eq!(buf[1], SCALE);
    assert_eq!(buf[2], 0);
}

#[test]
fn replacing_harmonics_takes_effect_next_call() {
    let mut s = RustSynth::new(8 * SCALE);
    s.set_waveform(Waveform::Additive);
    s.note_on(SCALE);
    let mut buf = vec![7; 2];
    s.process(&mut buf);
    assert_eq!(buf[1], 707_107);
    s.set_harmonics(vec![0, SCALE]);
    assert_eq!(s.harmonics, vec![0, SCALE]);
    let mut buf = vec![7; 2];
    s.process(&mut buf);
    // Phase continues at 0.25 and 0.375: the second harmonic stands at
    // sin(pi) = 0, then at sin(3 pi / 2) = -1.
    assert_eq!(buf[0], 0);
    assert_eq!(buf[1], -SCALE);
}
