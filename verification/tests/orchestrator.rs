use cookie_core::commands::{action_outcome, CommandLibrary};
use cookie_core::orchestrator::{
    process_transcription, CommandOutcome, ListenState, Orchestrator, RecvEvent, StepAction,
    CAPTURE_TIMEOUT_MS, POLL_INTERVAL_MS,
};
use cookie_core::stt::SttError;
use cookie_core::wakeword::{GateSignal, ScoreDetector, WakeWordGate};

#[test]
fn test_exactly_one_state_at_any_instant() {
    let mut orch = Orchestrator::new(CAPTURE_TIMEOUT_MS);
    let frame = vec![1i16; 4];
    let wake = ScoreDetector::new("cookie".to_string(), 450, 1)
        .observe(600)
        .expect("detection expected");

    // Sampled while idle.
    assert_eq!(orch.state(), ListenState::Idle);
    assert!(orch.is_idle() ^ orch.is_capturing());

    // Sampled right after a detection.
    orch.handle_frame(&frame, Some(&wake), 0);
    assert_eq!(orch.state(), ListenState::Capturing);
    assert!(orch.is_idle() ^ orch.is_capturing());

    // Sampled mid-capture and after the timeout.
    orch.handle_frame(&frame, None, 100);
    assert!(orch.is_idle() ^ orch.is_capturing());
    orch.poll(CAPTURE_TIMEOUT_MS + 1);
    assert_eq!(orch.state(), ListenState::Idle);
    assert!(orch.is_idle() ^ orch.is_capturing());
}

#[test]
fn test_silent_capture_times_out_without_recognition() {
    let mut orch = Orchestrator::new(CAPTURE_TIMEOUT_MS);
    let empty = Vec::new();
    let wake = ScoreDetector::new("cookie".to_string(), 450, 1)
        .observe(600)
        .expect("detection expected");
    orch.handle_frame(&empty, Some(&wake), 0);
    assert!(orch.is_capturing());

    // Zero frames arrive; the loop only polls.  The recognizer must never
    // be asked for anything, and the capture must end at the first poll
    // after the deadline: within one poll interval of the timeout.
    let mut now = 0u64;
    let mut ended_at = None;
    while now <= CAPTURE_TIMEOUT_MS + 2 * POLL_INTERVAL_MS {
        now += POLL_INTERVAL_MS;
        match orch.poll(now) {
            StepAction::Waiting => {}
            StepAction::TimedOutSilent => {
                ended_at = Some(now);
                break;
            }
            StepAction::TranscribePending(_) => panic!("recognizer invoked on empty utterance"),
            _ => panic!("unexpected action while capturing"),
        }
    }
    let ended_at = ended_at.expect("capture never timed out");
    assert!(ended_at > CAPTURE_TIMEOUT_MS);
    assert!(ended_at <= CAPTURE_TIMEOUT_MS + POLL_INTERVAL_MS + POLL_INTERVAL_MS);
    assert!(orch.is_idle());
}

#[test]
fn test_utterance_keeps_frame_order() {
    let mut orch = Orchestrator::new(CAPTURE_TIMEOUT_MS);
    let wake = ScoreDetector::new("cookie".to_string(), 450, 1)
        .observe(600)
        .expect("detection expected");
    orch.handle_frame(&Vec::new(), Some(&wake), 0);
    orch.handle_frame(&vec![1, 2], None, 10);
    orch.handle_frame(&vec![3], None, 20);
    orch.handle_frame(&vec![4, 5], None, 30);
    match orch.poll(CAPTURE_TIMEOUT_MS + 1) {
        StepAction::TranscribePending(utterance) => {
            assert_eq!(utterance, vec![1, 2, 3, 4, 5]);
        }
        _ => panic!("expected an utterance to transcribe"),
    }
}

#[test]
fn test_wake_word_mid_capture_is_ordinary_speech() {
    let mut orch = Orchestrator::new(CAPTURE_TIMEOUT_MS);
    let wake = ScoreDetector::new("cookie".to_string(), 450, 1)
        .observe(600)
        .expect("detection expected");
    orch.handle_frame(&Vec::new(), Some(&wake), 0);
    // A second detection while capturing does not restart the capture.
    match orch.handle_frame(&vec![7], Some(&wake), 100) {
        StepAction::Captured => {}
        _ => panic!("detection mid-capture must be ignored"),
    }
    match orch.poll(CAPTURE_TIMEOUT_MS + 1) {
        StepAction::TranscribePending(utterance) => assert_eq!(utterance, vec![7]),
        _ => panic!("expected the single capture to finish"),
    }
}

#[test]
fn test_end_to_end_scenario() {
    // A scorer gate that needs three sustained windows, the built-in
    // registry, and a recognizer stub that will return "время".
    let mut gate = WakeWordGate::Scorer(ScoreDetector::new("cookie".to_string(), 450, 3));
    let library = CommandLibrary::default_library();
    let mut orch = Orchestrator::new(CAPTURE_TIMEOUT_MS);

    // Synthetic frames simulating the wake phrase: sustained high scores.
    let wake_scores = [600u16, 700, 800];
    let mut detections = 0;
    let mut now = 0u64;
    for score in wake_scores {
        let frame = vec![0i16; 4];
        let detection = gate.process(&GateSignal::Score(score));
        if detection.is_some() {
            detections += 1;
        }
        orch.handle_frame(&frame, detection.as_ref(), now);
        now += 100;
    }
    assert_eq!(detections, 1, "exactly one detection expected");
    assert!(orch.is_capturing());

    // Frames simulating the spoken command.
    for _ in 0..3 {
        orch.handle_frame(&vec![5i16; 4], None, now);
        now += 100;
    }

    // The capture times out; the recognizer stub transcribes it.
    let utterance = match orch.poll(now + CAPTURE_TIMEOUT_MS + 1) {
        StepAction::TranscribePending(utterance) => utterance,
        _ => panic!("expected an utterance to transcribe"),
    };
    assert!(!utterance.is_empty());
    let recognized: Result<String, SttError> = Ok("время".to_string());

    // The registry resolves the "time" command; execute runs exactly once.
    let mut executions = 0;
    match process_transcription(&recognized, &library) {
        CommandOutcome::Matched(i) => {
            assert_eq!(library.commands[i].id, "time");
            executions += 1;
            assert_eq!(action_outcome(&library.commands[i].action, true), Ok(()));
        }
        other => panic!("expected a match, got {:?}", other),
    }
    assert_eq!(executions, 1);
    assert!(orch.is_idle());
}

#[test]
fn test_recognizer_timeout_is_recovered() {
    let mut orch = Orchestrator::new(CAPTURE_TIMEOUT_MS);
    let library = CommandLibrary::default_library();
    let wake = ScoreDetector::new("cookie".to_string(), 450, 1)
        .observe(600)
        .expect("detection expected");
    orch.handle_frame(&Vec::new(), Some(&wake), 0);
    orch.handle_frame(&vec![1i16; 8], None, 100);
    match orch.poll(CAPTURE_TIMEOUT_MS + 1) {
        StepAction::TranscribePending(_) => {}
        _ => panic!("expected an utterance to transcribe"),
    }

    // A recognizer that never resolves surfaces as a timeout error; the
    // orchestrator reports it and is already back to idle.
    let timed_out: Result<String, SttError> = Err(SttError::Timeout);
    assert_eq!(
        process_transcription(&timed_out, &library),
        CommandOutcome::RecognitionFailed(SttError::Timeout)
    );
    assert!(orch.is_idle());
}

#[test]
fn test_closed_channel_ends_the_loop() {
    let mut orch = Orchestrator::new(CAPTURE_TIMEOUT_MS);
    // A frame and a timed-out wait keep the loop going.
    assert!(matches!(
        orch.handle_recv(RecvEvent::Frame(vec![1i16; 4]), None, 0),
        StepAction::Listening
    ));
    assert!(matches!(
        orch.handle_recv(RecvEvent::TimedOut, None, 100),
        StepAction::Listening
    ));
    // A closed channel is the one loop-exit transition.
    assert!(matches!(
        orch.handle_recv(RecvEvent::Closed, None, 200),
        StepAction::Shutdown
    ));
    assert!(orch.is_idle());
}

#[test]
fn test_empty_transcription_short_circuits() {
    let library = CommandLibrary::default_library();
    let empty: Result<String, SttError> = Ok(String::new());
    assert_eq!(
        process_transcription(&empty, &library),
        CommandOutcome::NothingRecognized
    );
}

#[test]
fn test_unmatched_transcription_is_not_found() {
    let library = CommandLibrary::default_library();
    let text: Result<String, SttError> = Ok("какая погода".to_string());
    assert_eq!(
        process_transcription(&text, &library),
        CommandOutcome::NotFound
    );
}

#[test]
fn test_recognizer_errors_are_carried_through() {
    let library = CommandLibrary::default_library();
    for error in [
        SttError::BackendUnavailable,
        SttError::Network,
        SttError::Decode,
        SttError::Timeout,
    ] {
        let result: Result<String, SttError> = Err(error);
        assert_eq!(
            process_transcription(&result, &library),
            CommandOutcome::RecognitionFailed(error)
        );
    }
}
