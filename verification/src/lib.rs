//! Orchestration core of a wake-word voice assistant.
//!
//! The library models the pipeline that pulls PCM frames from a microphone,
//! waits for a wake phrase, captures a follow-up utterance under a timeout,
//! hands the utterance to a speech-to-text backend, and resolves the
//! recognized text to a command.  Audio capture, file loading and network
//! calls live outside the library; the decisions they feed are verified here.

pub mod audio;
pub mod channel;
pub mod commands;
pub mod config;
pub mod events;
pub mod gemini;
pub mod jarvis;
pub mod orchestrator;
pub mod persona;
pub(crate) mod random;
pub mod recorder;
pub mod settings;
pub mod stt;
pub mod text;
pub mod wakeword;

use vstd::prelude::*;

verus! {

/// Samples per second of every frame handled by the pipeline.
pub const SAMPLE_RATE_HZ: u32 = 16000;

} // verus!
