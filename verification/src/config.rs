//! Application configuration as the orchestration core reads it.
//!
//! The wake-word threshold is carried in permille (0..=1000) so that the
//! comparisons the pipeline makes on it are exact integer comparisons.

use vstd::prelude::*;

verus! {

/// Highest expressible confidence or threshold: one thousand permille.
pub const CONFIDENCE_FULL: u16 = 1000;

/// Which speech-to-text backend to build at startup.
#[derive(Debug, Clone)]
pub enum SttBackendConfig {
    /// On-device recognizer loaded from a model directory.
    Vosk { model_path: String },
    /// Remote recognizer reached over HTTP.
    Gemini,
}

/// Startup configuration, validated by the loader before the core sees it.
#[derive(Debug, Clone)]
pub struct Config {
    /// Wake-word activation threshold in permille.
    pub wake_word_threshold: u16,
    /// Path of the wake-word model.
    pub wake_word_path: String,
    /// Speech-to-text backend selection.
    pub stt_backend: SttBackendConfig,
    /// API key of the remote recognizer, when one is configured.
    pub gemini_api_key: Option<String>,
    /// Path of the persona phrase file.
    pub jarvis_phrases: String,
    /// Path of the command library file.
    pub commands_path: String,
    /// Index of the audio input device to capture from.
    pub listening_device: usize,
}

impl Config {
    /// A threshold is a proportion: it never exceeds full confidence.
    pub open spec fn inv(&self) -> bool {
        self.wake_word_threshold <= CONFIDENCE_FULL
    }
}

impl Default for Config {
    /// The configuration written on first start.
    fn default() -> (r: Config)
        ensures
            r.wake_word_threshold == 450,
            r.wake_word_path@ == "assets/wakeword/cookie.rpw"@,
            r.stt_backend matches SttBackendConfig::Vosk { model_path } && model_path@
                == "vosk/model_small"@,
            r.gemini_api_key is None,
            r.jarvis_phrases@ == "assets/phrases/jarvis_style.json"@,
            r.commands_path@ == "commands/commands.json"@,
            r.listening_device == 0,
            r.inv(),
    {
        Config {
            wake_word_threshold: 450,
            wake_word_path: String::from_str("assets/wakeword/cookie.rpw"),
            stt_backend: SttBackendConfig::Vosk {
                model_path: String::from_str("vosk/model_small"),
            },
            gemini_api_key: None,
            jarvis_phrases: String::from_str("assets/phrases/jarvis_style.json"),
            commands_path: String::from_str("commands/commands.json"),
            listening_device: 0,
        }
    }
}

/// Path of the configuration file inside the configuration directory.
pub fn get_config_path(config_dir: &str) -> (r: String)
    ensures
        r@ == config_dir@ + "/config.json"@,
{
    let mut path = String::from_str(config_dir);
    path.append("/config.json");
    path
}

} // verus!
