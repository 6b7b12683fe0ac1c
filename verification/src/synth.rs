//! The oscillator state and its host-facing interface.
//!
//! One `RustSynth` instance is one voice. A host sets the waveform, the
//! harmonics, the duty cycle and the note frequency at arbitrary times and
//! calls `process` once per audio block; `process` fills the caller's
//! buffer with one sample per slot and advances the phase by one increment
//! per sample, so output is phase-continuous across blocks.

use crate::fixed::{floor_div, wrap_mod, HALF_SCALE, SCALE};
use crate::trig::{sin_turn, sine_turn, PI_FP};
use crate::waveform::{valid_harmonics, waveform_sample, waveform_value, Waveform};
use vstd::arithmetic::div_mod::{lemma_add_mod_noop, lemma_fundamental_div_mod_converse};
use vstd::prelude::*;

verus! {

/// Greatest frequency magnitude the oscillator accepts: one million units,
/// far past audio range, and the widest value whose product with `SCALE`
/// (taken when the phase increment is computed) stays well within `i64`.
pub const FREQ_MAX: i64 = 1_000_000_000_000;

/// Greatest sample rate the oscillator accepts (one million units).
pub const RATE_MAX: i64 = 1_000_000_000_000;

/// Greatest duty cycle magnitude the oscillator accepts: one million units.
/// Anything outside `(0, SCALE)` already degrades to a constant square or
/// pulse output; the bound only keeps the spectral preview's product of
/// duty cycle and coefficient index within `i64`.
pub const DUTY_MAX: i64 = 1_000_000_000_000;

/// Number of entries in the spectral preview of the pulse waveform.
pub const SPECTRUM_LEN: usize = 512;

/// Fraction of one cycle that the phase advances per sample:
/// `frequency / sample_rate`, in ticks.
pub open spec fn phase_increment(frequency: int, sample_rate: int) -> int {
    (frequency * SCALE) / sample_rate
}

/// The phase reached from `p0` after `k` advances by `inc` ticks, wrapped
/// into `[0, SCALE)`.
pub open spec fn phase_after(p0: int, inc: int, k: int) -> int {
    (p0 + k * inc) % (SCALE as int)
}

/// Sine-series coefficient `n` of a pulse wave at the given duty cycle:
/// `2 * sin(pi * n * duty) / (pi * n)`, in ticks.
pub open spec fn pulse_coefficient(duty: int, n: int) -> int {
    (2 * sin_turn((n * duty) % (2 * SCALE)) * (SCALE as int)) / ((PI_FP as int) * n)
}

/// A monophonic oscillator voice.
pub struct RustSynth {
    /// Selected generation strategy.
    pub waveform: Waveform,
    /// Fraction of the current cycle already played, in `[0, SCALE)` ticks.
    pub phase: i64,
    /// Current frequency in ticks of a unit (Hz); `0` means silent.
    pub frequency: i64,
    /// Fraction of a cycle that square and pulse output stay high, in ticks.
    pub duty_cycle: i64,
    /// Samples per unit of time, in ticks; fixed at construction.
    pub sample_rate: i64,
    /// Harmonic amplitudes for the additive waveform, in ticks; entry `i`
    /// weighs harmonic `i + 1`.
    pub harmonics: Vec<i64>,
}

impl RustSynth {
    /// The state invariant: the phase stays inside one cycle and every
    /// parameter stays inside the fixed-point ranges the arithmetic needs.
    pub open spec fn wf(self) -> bool {
        &&& 0 <= self.phase < SCALE
        &&& 0 < self.sample_rate <= RATE_MAX
        &&& -FREQ_MAX <= self.frequency <= FREQ_MAX
        &&& -DUTY_MAX <= self.duty_cycle <= DUTY_MAX
        &&& valid_harmonics(self.harmonics@)
    }

    /// A fresh, silent voice: sine waveform, phase zero, duty cycle one
    /// half, a single full-amplitude harmonic.
    pub fn new(sample_rate: i64) -> (s: RustSynth)
        requires
            0 < sample_rate <= RATE_MAX,
        ensures
            s.wf(),
            s.waveform == Waveform::Sine,
            s.phase == 0,
            s.frequency == 0,
            s.duty_cycle == HALF_SCALE,
            s.sample_rate == sample_rate,
            s.harmonics@.len() == 1,
            s.harmonics@[0] == SCALE,
    {
        let mut harmonics: Vec<i64> = Vec::new();
        harmonics.push(SCALE);
        RustSynth {
            waveform: Waveform::Sine,
            phase: 0,
            frequency: 0,
            duty_cycle: HALF_SCALE,
            sample_rate,
            harmonics,
        }
    }

    /// Selects the generation strategy; the phase is untouched, so the
    /// change takes effect seamlessly on the next `process` call.
    pub fn set_waveform(&mut self, waveform: Waveform)
        ensures
            final(self).waveform == waveform,
            final(self).phase == old(self).phase,
            final(self).frequency == old(self).frequency,
            final(self).duty_cycle == old(self).duty_cycle,
            final(self).sample_rate == old(self).sample_rate,
            final(self).harmonics@ == old(self).harmonics@,
            old(self).wf() ==> final(self).wf(),
    {
        self.waveform = waveform;
    }

    /// Replaces the whole harmonic list. An empty list is legal and makes
    /// the additive waveform silent.
    pub fn set_harmonics(&mut self, harmonics: Vec<i64>)
        requires
            valid_harmonics(harmonics@),
        ensures
            final(self).harmonics@ == harmonics@,
            final(self).waveform == old(self).waveform,
            final(self).phase == old(self).phase,
            final(self).frequency == old(self).frequency,
            final(self).duty_cycle == old(self).duty_cycle,
            final(self).sample_rate == old(self).sample_rate,
            old(self).wf() ==> final(self).wf(),
    {
        self.harmonics = harmonics;
    }

    /// Starts a note: sets the frequency and resets the phase to exactly
    /// zero, whatever it was. Frequency `0` silences the voice but still
    /// resets the phase.
    pub fn note_on(&mut self, frequency: i64)
        requires
            -FREQ_MAX <= frequency <= FREQ_MAX,
        ensures
            final(self).frequency == frequency,
            final(self).phase == 0,
            final(self).waveform == old(self).waveform,
            final(self).duty_cycle == old(self).duty_cycle,
            final(self).sample_rate == old(self).sample_rate,
            final(self).harmonics@ == old(self).harmonics@,
            old(self).wf() ==> final(self).wf(),
    {
        self.frequency = frequency;
        self.phase = 0;
    }

    /// Stops the note: silences the voice and leaves the phase unchanged,
    /// so only `note_on` ever resets the phase.
    pub fn note_off(&mut self)
        ensures
            final(self).frequency == 0,
            final(self).phase == old(self).phase,
            final(self).waveform == old(self).waveform,
            final(self).duty_cycle == old(self).duty_cycle,
            final(self).sample_rate == old(self).sample_rate,
            final(self).harmonics@ == old(self).harmonics@,
            old(self).wf() ==> final(self).wf(),
    {
        self.frequency = 0;
    }

    /// Replaces the duty cycle; values outside `(0, SCALE)` make square
    /// and pulse output constant rather than failing.
    pub fn set_duty_cycle(&mut self, duty_cycle: i64)
        requires
            -DUTY_MAX <= duty_cycle <= DUTY_MAX,
        ensures
            final(self).duty_cycle == duty_cycle,
            final(self).waveform == old(self).waveform,
            final(self).phase == old(self).phase,
            final(self).frequency == old(self).frequency,
            final(self).sample_rate == old(self).sample_rate,
            final(self).harmonics@ == old(self).harmonics@,
            old(self).wf() ==> final(self).wf(),
    {
        self.duty_cycle = duty_cycle;
    }

    /// Fills every slot of the caller's buffer with one sample, in order.
    ///
    /// When the voice is silent (frequency `0`) every slot becomes `0` and
    /// the phase does not advance. Otherwise slot `k` is the selected
    /// waveform's value at the phase reached after `k` increments, and the
    /// phase ends one increment past the final sample — so repeated calls
    /// are phase-continuous.
    pub fn process(&mut self, output: &mut Vec<i64>)
        requires
            old(self).wf(),
        ensures
            final(self).wf(),
            final(self).waveform == old(self).waveform,
            final(self).frequency == old(self).frequency,
            final(self).duty_cycle == old(self).duty_cycle,
            final(self).sample_rate == old(self).sample_rate,
            final(self).harmonics@ == old(self).harmonics@,
            final(output)@.len() == old(output)@.len(),
            old(self).frequency == 0 ==> final(self).phase == old(self).phase && (forall|k: int|
                0 <= k < final(output)@.len() ==> final(output)@[k] == 0),
            old(self).frequency != 0 ==> (forall|k: int|
                0 <= k < final(output)@.len() ==> final(output)@[k] == waveform_value(
                    old(self).waveform,
                    phase_after(
                        old(self).phase as int,
                        phase_increment(old(self).frequency as int, old(self).sample_rate as int),
                        k,
                    ),
                    old(self).duty_cycle as int,
                    old(self).harmonics@,
                )),
            old(self).frequency != 0 ==> final(self).phase == phase_after(
                old(self).phase as int,
                phase_increment(old(self).frequency as int, old(self).sample_rate as int),
                old(output)@.len() as int,
            ),
    {
        let n = output.len();
        if self.frequency == 0 {
            let mut k: usize = 0;
            while k < n
                invariant
                    k <= n,
                    n == output@.len(),
                    forall|j: int| 0 <= j < k ==> output@[j] == 0,
                decreases n - k,
            {
                output[k] = 0;
                k = k + 1;
            }
            return;
        }
        let ghost p0 = self.phase as int;
        let ghost inc0 = phase_increment(self.frequency as int, self.sample_rate as int);
        let ghost start = *self;
        let inc_raw = floor_div(self.frequency * SCALE, self.sample_rate);
        let inc = wrap_mod(inc_raw, SCALE);
        proof {
            lemma_fundamental_div_mod_converse(p0, SCALE as int, 0, p0);
        }
        let mut k: usize = 0;
        while k < n
            invariant
                self.wf(),
                self.waveform == start.waveform,
                self.frequency == start.frequency,
                self.duty_cycle == start.duty_cycle,
                self.sample_rate == start.sample_rate,
                self.harmonics@ == start.harmonics@,
                start.wf(),
                k <= n,
                n == output@.len(),
                inc == inc0 % (SCALE as int),
                inc0 == phase_increment(start.frequency as int, start.sample_rate as int),
                0 <= p0 < SCALE,
                self.phase == phase_after(p0, inc0, k as int),
                forall|j: int|
                    0 <= j < k ==> output@[j] == waveform_value(
                        start.waveform,
                        phase_after(p0, inc0, j),
                        start.duty_cycle as int,
                        start.harmonics@,
                    ),
            decreases n - k,
        {
            let v = waveform_sample(self.waveform, self.phase, self.duty_cycle, &self.harmonics);
            output[k] = v;
            let stepped = wrap_mod(self.phase + inc, SCALE);
            proof {
                lemma_phase_step(p0, inc0, k as int);
            }
            self.phase = stepped;
            k = k + 1;
        }
    }

    /// The spectral preview of a pulse wave at the current duty cycle:
    /// `SPECTRUM_LEN` sine-series coefficients, with no direct-current term
    /// at index `0`. Recomputed on every call, never cached.
    pub fn get_pulse_waveform_data(&self) -> (v: Vec<i64>)
        requires
            self.wf(),
        ensures
            v@.len() == SPECTRUM_LEN,
            v@[0] == 0,
            forall|n: int|
                1 <= n < SPECTRUM_LEN ==> v@[n] == pulse_coefficient(self.duty_cycle as int, n),
    {
        let mut v: Vec<i64> = Vec::new();
        v.push(0);
        let mut n: usize = 1;
        while n < SPECTRUM_LEN
            invariant
                self.wf(),
                1 <= n <= SPECTRUM_LEN,
                v@.len() == n,
                v@[0] == 0,
                forall|j: int|
                    1 <= j < n ==> v@[j] == pulse_coefficient(self.duty_cycle as int, j),
            decreases SPECTRUM_LEN - n,
        {
            let nn = n as i64;
            proof {
                assert(-512 * 1_000_000_000_000int <= nn * self.duty_cycle <= 512
                    * 1_000_000_000_000int) by (nonlinear_arith)
                    requires
                        1 <= nn <= 512,
                        -1_000_000_000_000 <= self.duty_cycle <= 1_000_000_000_000,
                ;
            }
            let arg = wrap_mod(nn * self.duty_cycle, 2 * SCALE);
            let s = sine_turn(arg);
            let coefficient = floor_div(2 * s * SCALE, PI_FP * nn);
            v.push(coefficient);
            n = n + 1;
        }
        v
    }
}

/// One phase advance: adding the wrapped increment to the phase reached
/// after `k` steps lands on the phase reached after `k + 1` steps.
proof fn lemma_phase_step(p0: int, inc: int, k: int)
    ensures
        (phase_after(p0, inc, k) + (inc % (SCALE as int))) % (SCALE as int) == phase_after(
            p0,
            inc,
            k + 1,
        ),
{
    lemma_add_mod_noop(p0 + k * inc, inc, SCALE as int);
    assert(p0 + k * inc + inc == p0 + (k + 1) * inc) by (nonlinear_arith);
}

} // verus!
