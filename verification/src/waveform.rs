//! Waveform selection and per-sample value computation.
//!
//! Every sample is a pure function of the current phase, the duty cycle and
//! (for the additive waveform) the harmonic amplitude list; the spec
//! functions here state that value exactly and the executable functions
//! return it.

use crate::fixed::{floor_div, wrap_mod, HALF_SCALE, SCALE};
use crate::trig::{sin_cycle, sine_cycle};
use vstd::arithmetic::div_mod::{lemma_div_multiples_vanish, lemma_fundamental_div_mod_converse};
use vstd::prelude::*;

verus! {

/// Greatest number of harmonic amplitudes the oscillator accepts. Together
/// with `AMP_MAX` this keeps the additive accumulator within `i64`, whose
/// range admits just over nine thousand entries at the amplitude cap.
pub const MAX_HARMONICS: usize = 8192;

/// Greatest magnitude of a single harmonic amplitude (one thousand units).
pub const AMP_MAX: i64 = 1_000_000_000;

/// The closed set of generation strategies.
#[derive(Clone, Copy, PartialEq, Eq, Structural)]
pub enum Waveform {
    Sine,
    Square,
    Sawtooth,
    Triangle,
    Pulse,
    Additive,
}

/// A harmonic amplitude list the oscillator can mix without overflowing its
/// fixed-point accumulators.
pub open spec fn valid_harmonics(h: Seq<i64>) -> bool {
    &&& h.len() <= MAX_HARMONICS
    &&& forall|i: int| 0 <= i < h.len() ==> -AMP_MAX <= #[trigger] h[i] <= AMP_MAX
}

/// Square (and pulse) sample: high while the phase lies before the duty
/// cycle, low afterwards.
pub open spec fn square_value(phase: int, duty: int) -> int {
    if phase < duty {
        SCALE as int
    } else {
        -SCALE as int
    }
}

/// Sawtooth sample: a linear ramp from low to high over one cycle.
pub open spec fn sawtooth_value(phase: int) -> int {
    2 * phase - SCALE
}

/// Triangle sample: a fold of the cycle around its midpoint.
pub open spec fn triangle_value(phase: int) -> int {
    if phase >= HALF_SCALE {
        4 * (phase - HALF_SCALE) - SCALE
    } else {
        4 * (HALF_SCALE - phase) - SCALE
    }
}

/// Weighted sum of the sine harmonics with positive amplitude: harmonic
/// `i + 1` advances `i + 1` times as fast as the phase and is weighted by
/// `h[i]`. Amplitudes that are zero or negative are skipped outright and
/// contribute exactly nothing. The sum carries an extra factor `SCALE`
/// (one per-term product of two fixed-point values is left unscaled).
pub open spec fn harmonic_sum(phase: int, h: Seq<i64>) -> int
    decreases h.len(),
{
    if h.len() == 0 {
        0
    } else {
        harmonic_sum(phase, h.drop_last()) + (if h.last() > 0 {
            sin_cycle((phase * h.len()) % (SCALE as int)) * h.last()
        } else {
            0
        })
    }
}

/// Unconditional sum of all amplitudes, the negative and zero ones included.
pub open spec fn amplitude_total(h: Seq<i64>) -> int
    decreases h.len(),
{
    if h.len() == 0 {
        0
    } else {
        amplitude_total(h.drop_last()) + h.last()
    }
}

/// Additive sample: the harmonic mix, divided by the amplitude total when
/// that total exceeds one unit (normalization against clipping) and by one
/// unit otherwise (no normalization, preserving headroom). An empty list
/// yields zero.
pub open spec fn additive_value(phase: int, h: Seq<i64>) -> int {
    if amplitude_total(h) > SCALE {
        harmonic_sum(phase, h) / amplitude_total(h)
    } else {
        harmonic_sum(phase, h) / (SCALE as int)
    }
}

/// The sample produced by waveform `w` at the given phase, duty cycle and
/// harmonic list.
pub open spec fn waveform_value(w: Waveform, phase: int, duty: int, h: Seq<i64>) -> int {
    match w {
        Waveform::Sine => sin_cycle(phase),
        Waveform::Square => square_value(phase, duty),
        Waveform::Sawtooth => sawtooth_value(phase),
        Waveform::Triangle => triangle_value(phase),
        Waveform::Pulse => square_value(phase, duty),
        Waveform::Additive => additive_value(phase, h),
    }
}

/// For one phase and one duty cycle the square and pulse waveforms produce
/// the identical sample, whatever the harmonic list.
pub proof fn lemma_square_pulse_equal(phase: int, duty: int, h: Seq<i64>)
    ensures
        waveform_value(Waveform::Square, phase, duty, h) == waveform_value(
            Waveform::Pulse,
            phase,
            duty,
            h,
        ),
{
}

/// A single full-amplitude harmonic makes the additive waveform coincide
/// with the sine waveform at every phase, whatever the duty cycle.
pub proof fn lemma_additive_single_harmonic_is_sine(phase: int, duty: int)
    requires
        0 <= phase < SCALE,
    ensures
        waveform_value(Waveform::Additive, phase, duty, seq![SCALE]) == waveform_value(
            Waveform::Sine,
            phase,
            duty,
            seq![SCALE],
        ),
{
    let h: Seq<i64> = seq![SCALE];
    assert(h.drop_last() =~= Seq::<i64>::empty());
    assert(harmonic_sum(phase, Seq::<i64>::empty()) == 0);
    assert(amplitude_total(Seq::<i64>::empty()) == 0);
    lemma_fundamental_div_mod_converse(phase, SCALE as int, 0, phase);
    assert(phase * 1 == phase);
    assert(harmonic_sum(phase, h) == sin_cycle(phase) * (SCALE as int));
    assert(amplitude_total(h) == SCALE as int);
    lemma_div_multiples_vanish(sin_cycle(phase), SCALE as int);
    assert((SCALE as int) * sin_cycle(phase) == sin_cycle(phase) * (SCALE as int));
}

/// Computes `additive_value` of the current phase and the harmonic list.
fn additive_sample(phase: i64, harmonics: &Vec<i64>) -> (r: i64)
    requires
        0 <= phase < SCALE,
        valid_harmonics(harmonics@),
    ensures
        r == additive_value(phase as int, harmonics@),
{
    let n = harmonics.len();
    let mut acc: i64 = 0;
    let mut total: i64 = 0;
    let mut i: usize = 0;
    while i < n
        invariant
            0 <= phase < SCALE,
            valid_harmonics(harmonics@),
            n == harmonics@.len(),
            i <= n,
            acc == harmonic_sum(phase as int, harmonics@.take(i as int)),
            total == amplitude_total(harmonics@.take(i as int)),
            -(i as int) * 1_000_000_000_000_000 <= acc <= (i as int) * 1_000_000_000_000_000,
            -(i as int) * 1_000_000_000 <= total <= (i as int) * 1_000_000_000,
        decreases n - i,
    {
        proof {
            assert(harmonics@.take(i as int + 1).drop_last() =~= harmonics@.take(i as int));
            assert(harmonics@.take(i as int + 1).last() == harmonics@[i as int]);
        }
        let amp = harmonics[i];
        let mult = (i + 1) as i64;
        proof {
            assert(0 <= phase * mult <= 8192 * 1_000_000int) by (nonlinear_arith)
                requires
                    0 <= phase <= 1_000_000,
                    1 <= mult <= 8192,
            ;
        }
        if amp > 0 {
            let arg = wrap_mod(phase * mult, SCALE);
            let s = sine_cycle(arg);
            proof {
                assert(-1_000_000_000_000_000int <= s * amp <= 1_000_000_000_000_000int)
                    by (nonlinear_arith)
                    requires
                        -1_000_000 <= s <= 1_000_000,
                        0 < amp <= 1_000_000_000,
                ;
            }
            acc = acc + s * amp;
        }
        total = total + amp;
        i = i + 1;
    }
    proof {
        assert(harmonics@.take(n as int) =~= harmonics@);
    }
    if total > SCALE {
        floor_div(acc, total)
    } else {
        floor_div(acc, SCALE)
    }
}

/// Computes the sample of waveform `w` at the current phase: exactly
/// `waveform_value` of the arguments.
pub fn waveform_sample(w: Waveform, phase: i64, duty: i64, harmonics: &Vec<i64>) -> (r: i64)
    requires
        0 <= phase < SCALE,
        valid_harmonics(harmonics@),
    ensures
        r == waveform_value(w, phase as int, duty as int, harmonics@),
{
    match w {
        Waveform::Sine => sine_cycle(phase),
        Waveform::Square => if phase < duty {
            SCALE
        } else {
            -SCALE
        },
        Waveform::Sawtooth => 2 * phase - SCALE,
        Waveform::Triangle => if phase >= HALF_SCALE {
            4 * (phase - HALF_SCALE) - SCALE
        } else {
            4 * (HALF_SCALE - phase) - SCALE
        },
        Waveform::Pulse => if phase < duty {
            SCALE
        } else {
            -SCALE
        },
        Waveform::Additive => additive_sample(phase, harmonics),
    }
}

} // verus!
