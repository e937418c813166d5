//! Speech-to-text backend selection and the recognizer failure taxonomy.
//!
//! The engines themselves (an on-device model, a remote HTTP recognizer)
//! run outside the library; this module decides which backend a
//! configuration names and whether it can be brought up at all.

use vstd::prelude::*;

use crate::config::SttBackendConfig;
use crate::text::{trim_of, trimmed};

verus! {

/// Why a transcription did not produce text.  Every variant is recovered
/// per-utterance: the orchestrator reports it and returns to idle.
#[derive(Debug, Clone, Copy, PartialEq, Eq, Structural)]
pub enum SttError {
    /// The backend cannot run at all: missing API key or missing model.
    BackendUnavailable,
    /// The remote call failed.
    Network,
    /// The response could not be decoded.
    Decode,
    /// The recognizer did not resolve within its time budget.
    Timeout,
}

/// The recognizer interface the engines implement: a complete utterance
/// in, recognized text out.  An empty string is a valid result, distinct
/// from every error.
pub trait SpeechToText {
    fn transcribe(&mut self, pcm: &[i16]) -> Result<String, SttError>;
}

/// The selected backend, with everything the engine needs to start.
#[derive(Debug, Clone)]
pub enum SttBackend {
    /// On-device recognizer; the engine loads its model from this path.
    Vosk { model_path: String },
    /// Remote recognizer; every request carries this key.
    Gemini { api_key: String },
}

impl SttBackend {
    /// Selects the backend a configuration names.  The remote backend
    /// needs a key: without one, or with an empty one, it is unavailable,
    /// and startup fails rather than limping along half-initialized.
    pub fn from_config(config: &SttBackendConfig, gemini_api_key: Option<String>) -> (r: Result<
        SttBackend,
        SttError,
    >)
        ensures
            match config {
                SttBackendConfig::Vosk { model_path } => r matches Ok(SttBackend::Vosk {
                    model_path: p,
                }) && p@ == model_path@,
                SttBackendConfig::Gemini => match gemini_api_key {
                    Some(key) => if key@.len() == 0 {
                        r == Result::<SttBackend, SttError>::Err(SttError::BackendUnavailable)
                    } else {
                        r matches Ok(SttBackend::Gemini { api_key }) && api_key@ == key@
                    },
                    None => r == Result::<SttBackend, SttError>::Err(
                        SttError::BackendUnavailable,
                    ),
                },
            },
    {
        match config {
            SttBackendConfig::Vosk { model_path } => Ok(
                SttBackend::Vosk { model_path: model_path.clone() },
            ),
            SttBackendConfig::Gemini => match gemini_api_key {
                Some(key) => {
                    if key.as_str().is_empty() {
                        Err(SttError::BackendUnavailable)
                    } else {
                        Ok(SttBackend::Gemini { api_key: key })
                    }
                },
                None => Err(SttError::BackendUnavailable),
            },
        }
    }
}

/// The transcript of one on-device decoding step: nothing until the
/// decoder finalizes a segment; then the first alternative, trimmed, with
/// an empty result mapped to no transcript.
pub fn decoded_transcript(finalized: bool, alternatives: &Vec<String>) -> (r: Option<String>)
    ensures
        match r {
            Some(text) => {
                &&& finalized
                &&& alternatives@.len() > 0
                &&& text@ == trim_of(alternatives@[0]@)
                &&& text@.len() > 0
            },
            None => !finalized || alternatives@.len() == 0 || trim_of(
                alternatives@[0]@,
            ).len() == 0,
        },
{
    if !finalized {
        return None;
    }
    if alternatives.len() == 0 {
        return None;
    }
    let text = trimmed(alternatives[0].as_str());
    if text.is_empty() {
        None
    } else {
        Some(String::from_str(text))
    }
}

} // verus!
