//! Core of a music-notation audio toolchain: the data model and the
//! sample-accurate bookkeeping of the rendering engine.
//!
//! The engine turns a time-ordered list of note events into audio. Everything
//! here that decides *which* samples belong to *which* note — pitch-name
//! parsing, preset and zone selection, voice scheduling, block admission,
//! end-of-song length computation, and the WAV byte layout — is verified.
//! The floating-point signal path (oscillators, envelopes, filters, effects)
//! lives outside the verified core and consumes these decisions.

pub mod composite;
pub mod delay;
pub mod envelope;
pub mod filter;
pub mod pitch;
pub mod preset;
pub mod sampler;
pub mod schedule;
pub mod wav;
pub mod waveform;
