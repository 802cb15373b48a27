//! A monophonic synthesizer core: a pitch converter, phase-accumulating
//! oscillators (pure sine and band-limited sawtooth), a note-tracking state
//! machine driven by MIDI-style messages, and a block renderer that
//! broadcasts one mono signal to every output channel.
//!
//! Frequencies and oscillator phases are exact rationals (integer numerator
//! and denominator), so phase accumulation, harmonic counts and note
//! tracking are verified exactly. Turning a phase into an actual waveform
//! amplitude (the trigonometry) is left to the host-facing layer.

pub mod notes;
pub mod oscillator;
pub mod pitch;
pub mod synth;
