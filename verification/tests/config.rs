use cookie_core::config::{get_config_path, Config, SttBackendConfig};
use cookie_core::events::EventTypes;
use cookie_core::recorder::{
    convert_i32, convert_i64, convert_i8, convert_u16, convert_u32, convert_u64, convert_u8,
    select_device, select_input_config, DeviceError, RecorderType,
};
use cookie_core::settings::{get_db_file_path, ApiKeys, Settings, WakeWordEngine};
use cookie_core::stt::{decoded_transcript, SttBackend, SttError};

#[test]
fn test_default_config() {
    let config = Config::default();
    assert_eq!(config.wake_word_threshold, 450);
    assert!(config.gemini_api_key.is_none());
}

#[test]
fn test_default_config_paths() {
    let config = Config::default();
    assert_eq!(config.wake_word_path, "assets/wakeword/cookie.rpw");
    assert_eq!(config.commands_path, "commands/commands.json");
    assert!(matches!(
        config.stt_backend,
        SttBackendConfig::Vosk { ref model_path } if model_path == "vosk/model_small"
    ));
}

#[test]
fn test_config_path_join() {
    assert_eq!(get_config_path("/home/user/.config/cookie"), "/home/user/.config/cookie/config.json");
}

#[test]
fn test_db_file_path_join() {
    assert_eq!(get_db_file_path("/tmp/cfg"), "/tmp/cfg/app.db");
}

#[test]
fn test_default_settings() {
    let settings = Settings::default();
    assert_eq!(settings.microphone, -1);
    assert_eq!(settings.wake_word_engine, WakeWordEngine::Rustpotter);
    assert!(!settings.onboarding_completed);
    let keys = ApiKeys::default();
    assert!(keys.picovoice.is_empty());
    assert!(keys.openai.is_empty());
}

#[test]
fn test_event_names() {
    assert_eq!(EventTypes::AssistantGreet.get(), "assistant-greet");
    assert_eq!(EventTypes::AssistantWaiting.get(), "assistant-waiting");
    assert_eq!(EventTypes::CommandExecuted.get(), "command-executed");
}

#[test]
fn test_recorder_type_from_selector() {
    assert_eq!(RecorderType::from(0u32), RecorderType::Cpal);
    assert_eq!(RecorderType::from(1u32), RecorderType::PvRecorder);
    assert_eq!(RecorderType::from(2u32), RecorderType::PortAudio);
    assert_eq!(RecorderType::from(7u32), RecorderType::PvRecorder);
}

#[test]
fn test_stt_backend_selection() {
    let vosk = SttBackendConfig::Vosk {
        model_path: "vosk/model_small".to_string(),
    };
    match SttBackend::from_config(&vosk, None) {
        Ok(SttBackend::Vosk { model_path }) => assert_eq!(model_path, "vosk/model_small"),
        other => panic!("expected the on-device backend, got {:?}", other),
    }

    match SttBackend::from_config(&SttBackendConfig::Gemini, Some("key123".to_string())) {
        Ok(SttBackend::Gemini { api_key }) => assert_eq!(api_key, "key123"),
        other => panic!("expected the remote backend, got {:?}", other),
    }
}

#[test]
fn test_stt_backend_unavailable_without_key() {
    assert!(matches!(
        SttBackend::from_config(&SttBackendConfig::Gemini, None),
        Err(SttError::BackendUnavailable)
    ));
    assert!(matches!(
        SttBackend::from_config(&SttBackendConfig::Gemini, Some(String::new())),
        Err(SttError::BackendUnavailable)
    ));
}

#[test]
fn test_sample_conversions() {
    assert_eq!(convert_i8(&vec![-128, -1, 0, 127]), vec![-32768, -256, 0, 32512]);
    assert_eq!(
        convert_i32(&vec![i32::MIN, -65536, 0, 65536, i32::MAX]),
        vec![-32768, -1, 0, 1, 32767]
    );
    assert_eq!(convert_i64(&vec![i64::MIN, 0, i64::MAX]), vec![-32768, 0, 32767]);
    assert_eq!(convert_u8(&vec![0, 127, 128, 255]), vec![-32768, -256, 0, 32512]);
    assert_eq!(convert_u16(&vec![0, 32767, 32768, 65535]), vec![-32768, -1, 0, 32767]);
    assert_eq!(convert_u32(&vec![0, u32::MAX]), vec![-32768, 32767]);
    assert_eq!(convert_u64(&vec![0, u64::MAX]), vec![-32768, 32767]);
}

#[test]
fn test_select_device() {
    // In-range index: that device.
    assert_eq!(select_device(3, 1, true), Ok(Some(1)));
    assert_eq!(select_device(3, 1, false), Ok(Some(1)));
    // Out-of-range index: the default, when one exists.
    assert_eq!(select_device(3, 7, true), Ok(None));
    assert_eq!(select_device(3, 7, false), Err(DeviceError::NotFound));
    // No device at all.
    assert_eq!(select_device(0, 0, false), Err(DeviceError::NotFound));
}

#[test]
fn test_decoded_transcript() {
    let alternatives = vec!["  время  ".to_string(), "второй".to_string()];
    assert_eq!(decoded_transcript(true, &alternatives), Some("время".to_string()));
    // Not finalized yet: no transcript.
    assert_eq!(decoded_transcript(false, &alternatives), None);
    // No alternative, or only whitespace: no transcript.
    assert_eq!(decoded_transcript(true, &Vec::new()), None);
    let blank = vec!["   ".to_string()];
    assert_eq!(decoded_transcript(true, &blank), None);
}

#[test]
fn test_select_input_config_takes_first_compatible() {
    let ranges = vec![(44100, 48000), (8000, 48000), (16000, 16000)];
    assert_eq!(select_input_config(&ranges), Some(1));
    let none = vec![(44100, 48000), (22050, 22050)];
    assert_eq!(select_input_config(&none), None);
    assert_eq!(select_input_config(&Vec::new()), None);
}
