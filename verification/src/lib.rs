//! A polyphonic sample-playback synthesis engine.
//!
//! Control commands are queued into the engine; once per render period the
//! engine drains them, renders every active voice into a scratch buffer,
//! mixes the result into the output block and publishes a state snapshot.
//! All audio values are fixed-point integers (see [`units`]); decoding,
//! device I/O and display live outside this crate and exchange plain
//! values with it.

pub mod api;
pub mod dsp;
pub mod engine;
pub mod envelope;
pub mod mixer;
pub mod sample;
pub mod midi;
pub mod units;
pub mod voice;
