//! A monophonic waveform oscillator core.
//!
//! All quantities are held in a fixed-point representation: one unit of the
//! original real-valued domain equals `SCALE` ticks. Phase is a fraction of
//! one waveform cycle, kept in `[0, SCALE)`; sample values nominally span
//! `[-SCALE, SCALE]`.

mod fixed;
mod synth;
mod trig;
mod waveform;

pub use synth::RustSynth;
pub use synth::DUTY_MAX;
pub use synth::FREQ_MAX;
pub use synth::RATE_MAX;
pub use synth::SPECTRUM_LEN;

pub use fixed::floor_div;
pub use fixed::wrap_mod;
pub use fixed::HALF_SCALE;
pub use fixed::SCALE;
pub use trig::sine_cycle;
pub use trig::sine_turn;
pub use waveform::waveform_sample;
pub use waveform::Waveform;
pub use waveform::AMP_MAX;
pub use waveform::MAX_HARMONICS;
