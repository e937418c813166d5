//! Settings store of the desktop front end: the persisted user choices the
//! shell reads and writes, and the engine selections they carry.

use vstd::prelude::*;

verus! {

/// Which wake-word engine the front end runs.
#[derive(Debug, Clone, Copy, PartialEq, Eq, Structural)]
pub enum WakeWordEngine {
    Rustpotter,
    Vosk,
}

/// Which speech-to-text engine the front end runs.
#[derive(Debug, Clone, Copy, PartialEq, Eq, Structural)]
pub enum SpeechToTextEngine {
    Vosk,
}

/// API keys the user may store.
#[derive(Debug, Clone)]
pub struct ApiKeys {
    pub picovoice: String,
    pub openai: String,
}

impl Default for ApiKeys {
    /// Both keys start empty.
    fn default() -> (r: ApiKeys)
        ensures
            r.picovoice@ == Seq::<char>::empty(),
            r.openai@ == Seq::<char>::empty(),
    {
        ApiKeys { picovoice: String::new(), openai: String::new() }
    }
}

/// The persisted user settings.
#[derive(Debug, Clone)]
pub struct Settings {
    /// Selected microphone; negative means the system default.
    pub microphone: i32,
    pub voice: String,
    pub wake_word_engine: WakeWordEngine,
    pub speech_to_text_engine: SpeechToTextEngine,
    pub onboarding_completed: bool,
    pub api_keys: ApiKeys,
}

impl Default for Settings {
    /// A fresh installation: default microphone, default engines, empty
    /// keys, onboarding still pending.
    fn default() -> (r: Settings)
        ensures
            r.microphone == -1,
            r.voice@ == Seq::<char>::empty(),
            r.wake_word_engine == WakeWordEngine::Rustpotter,
            r.speech_to_text_engine == SpeechToTextEngine::Vosk,
            !r.onboarding_completed,
            r.api_keys.picovoice@ == Seq::<char>::empty(),
            r.api_keys.openai@ == Seq::<char>::empty(),
    {
        Settings {
            microphone: -1,
            voice: String::new(),
            wake_word_engine: WakeWordEngine::Rustpotter,
            speech_to_text_engine: SpeechToTextEngine::Vosk,
            onboarding_completed: false,
            api_keys: ApiKeys { picovoice: String::new(), openai: String::new() },
        }
    }
}

/// Path of the settings database inside the configuration directory.
pub fn get_db_file_path(config_dir: &str) -> (r: String)
    ensures
        r@ == config_dir@ + "/app.db"@,
{
    let mut path = String::from_str(config_dir);
    path.append("/app.db");
    path
}

} // verus!
