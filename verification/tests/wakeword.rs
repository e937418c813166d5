use cookie_core::wakeword::{
    GateSignal, ScoreDetector, WakeWordDetector, WakeWordGate, DEFAULT_WAKE_THRESHOLD,
};

#[test]
fn test_threshold() {
    let threshold = 0.45;
    assert!(threshold > 0.0 && threshold < 1.0);
}

#[test]
fn test_default_threshold_is_a_proportion() {
    assert_eq!(DEFAULT_WAKE_THRESHOLD, 450);
    assert!(DEFAULT_WAKE_THRESHOLD > 0 && DEFAULT_WAKE_THRESHOLD < 1000);
}

#[test]
fn test_grammar_gate_accepts_exact_phrase_only() {
    let detector = WakeWordDetector::new("Cookie", DEFAULT_WAKE_THRESHOLD);
    assert!(detector.process(Some("cookie")));
    assert!(!detector.process(Some("cookies please")));
    assert!(!detector.process(None));
}

#[test]
fn test_grammar_gate_normalizes_decoded_text() {
    // The configured phrase and the decoded text both go through trimming
    // and lower-casing before they are compared.
    let detector = WakeWordDetector::new("COOKIE", DEFAULT_WAKE_THRESHOLD);
    assert_eq!(detector.phrase(), "cookie");
    assert!(detector.process(Some("  Cookie  ")));
}

#[test]
fn test_scorer_debounces_single_spikes() {
    let mut detector = ScoreDetector::new("cookie".to_string(), 450, 3);
    // One spike, then silence: no detection.
    assert!(detector.observe(999).is_none());
    assert!(detector.observe(0).is_none());
    // Two sustained windows are still not enough for three.
    assert!(detector.observe(500).is_none());
    assert!(detector.observe(500).is_none());
    // The third consecutive window fires, carrying its own score.
    let event = detector.observe(700).expect("sustained score must fire");
    assert_eq!(event.phrase_name, "cookie");
    assert_eq!(event.confidence, 700);
    // The streak restarts after a detection.
    assert!(detector.observe(500).is_none());
}

#[test]
fn test_scorer_below_threshold_breaks_streak() {
    let mut detector = ScoreDetector::new("cookie".to_string(), 450, 2);
    assert!(detector.observe(500).is_none());
    assert!(detector.observe(449).is_none());
    assert!(detector.observe(500).is_none());
    assert!(detector.observe(450).is_some());
}

#[test]
fn test_scorer_reset_clears_streak() {
    let mut detector = ScoreDetector::new("cookie".to_string(), 450, 2);
    assert!(detector.observe(500).is_none());
    detector.reset();
    assert!(detector.observe(500).is_none(), "reset cleared the streak");
}

#[test]
fn test_set_threshold_keeps_the_streak() {
    let mut detector = ScoreDetector::new("cookie".to_string(), 450, 2);
    assert!(detector.observe(500).is_none());

    // Retuning changes only the threshold: the running streak survives,
    // so a single window above the new threshold completes it.
    detector.set_threshold(800);
    assert_eq!(detector.threshold(), 800);
    assert!(detector.observe(900).is_some());

    // The streak restarts after the detection, and windows below the new
    // threshold keep it broken.
    assert!(detector.observe(500).is_none());
    assert!(detector.observe(900).is_none());
    assert!(detector.observe(900).is_some());
}

#[test]
fn test_gate_variants() {
    let mut grammar = WakeWordGate::Grammar(WakeWordDetector::new("cookie", 450));
    let event = grammar
        .process(&GateSignal::Finalized("cookie".to_string()))
        .expect("phrase must fire");
    assert_eq!(event.phrase_name, "cookie");
    assert!(grammar.process(&GateSignal::Score(999)).is_none());

    let mut scorer = WakeWordGate::Scorer(ScoreDetector::new("cookie".to_string(), 450, 1));
    assert!(scorer
        .process(&GateSignal::Finalized("cookie".to_string()))
        .is_none());
    assert!(scorer.process(&GateSignal::Score(600)).is_some());
}

#[test]
fn test_disabled_gate_never_detects() {
    let mut gate = WakeWordGate::Disabled;
    assert!(gate.process(&GateSignal::Score(1000)).is_none());
    assert!(gate
        .process(&GateSignal::Finalized("cookie".to_string()))
        .is_none());
    assert!(gate.process(&GateSignal::Quiet).is_none());
}
