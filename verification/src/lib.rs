//! Control plane of a real-time oscillator: sample-accurate scheduling,
//! waveform selection, periodic-wave validation and the hand-off of new
//! wavetables from the control thread to the render thread.
//!
//! Sample values and timestamps are carried as IEEE-754 bit patterns, so that
//! every rule in this crate is a statement about integers.

pub mod binary32;
pub mod binary64;
pub mod control;
pub mod message;
pub mod node;
pub mod normalization;
pub mod periodic_wave;
pub mod renderer;
mod shared;
pub mod waveform;
