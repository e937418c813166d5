//! Wake-word gating: the decision layer over the acoustic engines.
//!
//! Two engine shapes feed it.  A grammar-constrained decoder reports, per
//! frame, whether it finalized a segment and what text it heard; the filter
//! accepts only the configured phrase.  A continuous scorer reports one
//! confidence per window; the filter accepts only a score at or above the
//! threshold sustained over a minimum number of consecutive windows, which
//! debounces single-window spikes.  A build without any engine falls back
//! to a filter that never detects.

use vstd::prelude::*;

use crate::config::CONFIDENCE_FULL;
use crate::text::{lower_of, lowercase, trim_of, trimmed};

verus! {

/// Default activation threshold in permille.
pub const DEFAULT_WAKE_THRESHOLD: u16 = 450;

/// A reported wake-word detection: which phrase fired, and how confident
/// the engine was, in permille.
#[derive(Debug, Clone)]
pub struct DetectionEvent {
    pub phrase_name: String,
    pub confidence: u16,
}

impl DetectionEvent {
    /// Confidence is a proportion: it never exceeds full confidence.
    pub open spec fn inv(&self) -> bool {
        self.confidence <= CONFIDENCE_FULL
    }
}

/// What the acoustic engine extracted from one frame.
#[derive(Debug, Clone)]
pub enum GateSignal {
    /// A grammar decoder finalized a segment with this text.
    Finalized(String),
    /// A continuous scorer produced this confidence, in permille.
    Score(u16),
    /// Nothing noteworthy in this frame.
    Quiet,
}

/// The grammar-constrained gate: fires exactly when a finalized segment,
/// trimmed and lowercased, equals the configured phrase.
#[derive(Debug, Clone)]
pub struct WakeWordDetector {
    phrase: String,
    threshold: u16,
}

impl WakeWordDetector {
    /// The phrase the detector listens for, already normalized.
    pub closed spec fn spec_phrase(&self) -> Seq<char> {
        self.phrase@
    }

    pub closed spec fn spec_threshold(&self) -> u16 {
        self.threshold
    }

    pub open spec fn inv(&self) -> bool {
        self.spec_threshold() <= CONFIDENCE_FULL
    }

    /// Builds the detector for a configured phrase; the phrase is normalized
    /// once, here, so every later comparison is against lowercase text.
    pub fn new(phrase: &str, threshold: u16) -> (r: WakeWordDetector)
        requires
            threshold <= CONFIDENCE_FULL,
        ensures
            r.spec_phrase() == lower_of(phrase@),
            r.spec_threshold() == threshold,
            r.inv(),
    {
        WakeWordDetector { phrase: lowercase(phrase), threshold }
    }

    /// Whether this finalized text is the wake phrase.
    pub open spec fn accepts(&self, text: Seq<char>) -> bool {
        lower_of(trim_of(text)) == self.spec_phrase()
    }

    /// Decides one frame's decoder outcome: only a finalized segment whose
    /// normalized text equals the phrase counts as a detection.
    pub fn process(&self, decoded: Option<&str>) -> (r: bool)
        ensures
            r == match decoded {
                Some(text) => self.accepts(text@),
                None => false,
            },
    {
        match decoded {
            Some(text) => {
                let normalized = lowercase(trimmed(text));
                normalized == self.phrase
            },
            None => false,
        }
    }

    /// The configured phrase.
    pub fn phrase(&self) -> (r: &str)
        ensures
            r@ == self.spec_phrase(),
    {
        self.phrase.as_str()
    }

    /// The configured threshold, in permille.
    pub fn threshold(&self) -> (r: u16)
        ensures
            r == self.spec_threshold(),
    {
        self.threshold
    }
}

/// What one scored window does to the debounce streak, and whether it
/// completes a detection: a window at or above the threshold extends the
/// streak and fires once the streak reaches the minimum; a window below
/// the threshold breaks the streak.
pub open spec fn streak_step(streak: u32, min_windows: u32, threshold: u16, score: u16) -> (
    u32,
    bool,
) {
    if score >= threshold {
        if streak + 1 >= min_windows {
            (0u32, true)
        } else {
            ((streak + 1) as u32, false)
        }
    } else {
        (0u32, false)
    }
}

/// Debouncing: when at least two sustained windows are required, a single
/// high-scoring window arriving on a broken streak never fires.
pub proof fn lemma_single_spike_is_debounced(min_windows: u32, threshold: u16, score: u16)
    requires
        min_windows >= 2,
    ensures
        !streak_step(0, min_windows, threshold, score).1,
{
}

/// The continuous-scorer detector, with debouncing state.
#[derive(Debug, Clone)]
pub struct ScoreDetector {
    name: String,
    threshold: u16,
    min_windows: u32,
    streak: u32,
}

impl ScoreDetector {
    pub closed spec fn spec_name(&self) -> Seq<char> {
        self.name@
    }

    pub closed spec fn spec_threshold(&self) -> u16 {
        self.threshold
    }

    pub closed spec fn spec_min_windows(&self) -> u32 {
        self.min_windows
    }

    /// How many consecutive windows have scored at or above the threshold.
    pub closed spec fn spec_streak(&self) -> u32 {
        self.streak
    }

    pub open spec fn inv(&self) -> bool {
        &&& self.spec_threshold() <= CONFIDENCE_FULL
        &&& self.spec_min_windows() >= 1
        &&& self.spec_streak() < self.spec_min_windows()
    }

    pub fn new(name: String, threshold: u16, min_windows: u32) -> (r: ScoreDetector)
        requires
            threshold <= CONFIDENCE_FULL,
            min_windows >= 1,
        ensures
            r.spec_name() == name@,
            r.spec_threshold() == threshold,
            r.spec_min_windows() == min_windows,
            r.spec_streak() == 0,
            r.inv(),
    {
        ScoreDetector { name, threshold, min_windows, streak: 0 }
    }

    /// Feeds one window's score through the debounce step.  A detection
    /// names the configured phrase and carries the firing window's score;
    /// the streak restarts after it.
    pub fn observe(&mut self, score: u16) -> (r: Option<DetectionEvent>)
        requires
            old(self).inv(),
            score <= CONFIDENCE_FULL,
        ensures
            final(self).inv(),
            final(self).spec_name() == old(self).spec_name(),
            final(self).spec_threshold() == old(self).spec_threshold(),
            final(self).spec_min_windows() == old(self).spec_min_windows(),
            final(self).spec_streak() == streak_step(
                old(self).spec_streak(),
                old(self).spec_min_windows(),
                old(self).spec_threshold(),
                score,
            ).0,
            match r {
                Some(event) => {
                    &&& streak_step(
                        old(self).spec_streak(),
                        old(self).spec_min_windows(),
                        old(self).spec_threshold(),
                        score,
                    ).1
                    &&& event.phrase_name@ == old(self).spec_name()
                    &&& event.confidence == score
                    &&& event.inv()
                },
                None => !streak_step(
                    old(self).spec_streak(),
                    old(self).spec_min_windows(),
                    old(self).spec_threshold(),
                    score,
                ).1,
            },
    {
        if score >= self.threshold {
            if self.streak + 1 >= self.min_windows {
                self.streak = 0;
                Some(DetectionEvent { phrase_name: self.name.clone(), confidence: score })
            } else {
                self.streak = self.streak + 1;
                None
            }
        } else {
            self.streak = 0;
            None
        }
    }

    /// Clears the debounce streak without touching the configuration.
    pub fn reset(&mut self)
        ensures
            final(self).spec_name() == old(self).spec_name(),
            final(self).spec_threshold() == old(self).spec_threshold(),
            final(self).spec_min_windows() == old(self).spec_min_windows(),
            final(self).spec_streak() == 0,
    {
        self.streak = 0;
    }

    pub fn threshold(&self) -> (r: u16)
        ensures
            r == self.spec_threshold(),
    {
        self.threshold
    }

    /// Retunes the detector.  Only the threshold changes: the running
    /// debounce streak is kept, since only `reset` clears state.
    pub fn set_threshold(&mut self, threshold: u16)
        requires
            old(self).inv(),
            threshold <= CONFIDENCE_FULL,
        ensures
            final(self).spec_name() == old(self).spec_name(),
            final(self).spec_threshold() == threshold,
            final(self).spec_min_windows() == old(self).spec_min_windows(),
            final(self).spec_streak() == old(self).spec_streak(),
            final(self).inv(),
    {
        self.threshold = threshold;
    }
}

/// The wake-word filter the orchestrator feeds: one of the two engine-backed
/// variants, or the documented no-op fallback of a build without an
/// engine, which never detects (and must not be mistaken for a configured
/// filter staying quiet).
#[derive(Debug, Clone)]
pub enum WakeWordGate {
    Grammar(WakeWordDetector),
    Scorer(ScoreDetector),
    Disabled,
}

impl WakeWordGate {
    pub open spec fn inv(&self) -> bool {
        match self {
            WakeWordGate::Grammar(d) => d.inv(),
            WakeWordGate::Scorer(d) => d.inv(),
            WakeWordGate::Disabled => true,
        }
    }

    /// Feeds one frame's engine signal through the filter.
    pub fn process(&mut self, signal: &GateSignal) -> (r: Option<DetectionEvent>)
        requires
            old(self).inv(),
        ensures
            final(self).inv(),
            match *old(self) {
                WakeWordGate::Grammar(d) => {
                    &&& *final(self) == *old(self)
                    &&& match r {
                        Some(event) => {
                            &&& signal matches GateSignal::Finalized(text) && d.accepts(text@)
                            &&& event.phrase_name@ == d.spec_phrase()
                            &&& event.confidence == CONFIDENCE_FULL
                        },
                        None => !(signal matches GateSignal::Finalized(text) && d.accepts(
                            text@,
                        )),
                    }
                },
                WakeWordGate::Scorer(d) => match signal {
                    GateSignal::Score(score) => {
                        &&& *final(self) matches WakeWordGate::Scorer(d2)
                        &&& d2.spec_name() == d.spec_name()
                        &&& d2.spec_threshold() == d.spec_threshold()
                        &&& d2.spec_min_windows() == d.spec_min_windows()
                        &&& d2.spec_streak() == streak_step(
                            d.spec_streak(),
                            d.spec_min_windows(),
                            d.spec_threshold(),
                            if score > CONFIDENCE_FULL {
                                CONFIDENCE_FULL
                            } else {
                                *score
                            },
                        ).0
                        &&& match r {
                            Some(event) => {
                                &&& streak_step(
                                    d.spec_streak(),
                                    d.spec_min_windows(),
                                    d.spec_threshold(),
                                    if score > CONFIDENCE_FULL {
                                        CONFIDENCE_FULL
                                    } else {
                                        *score
                                    },
                                ).1
                                &&& event.phrase_name@ == d.spec_name()
                                &&& event.inv()
                            },
                            None => !streak_step(
                                d.spec_streak(),
                                d.spec_min_windows(),
                                d.spec_threshold(),
                                if score > CONFIDENCE_FULL {
                                    CONFIDENCE_FULL
                                } else {
                                    *score
                                },
                            ).1,
                        }
                    },
                    _ => *final(self) == *old(self) && r is None,
                },
                WakeWordGate::Disabled => *final(self) == *old(self) && r is None,
            },
    {
        match self {
            WakeWordGate::Grammar(detector) => {
                let fired = match signal {
                    GateSignal::Finalized(text) => detector.process(Some(text.as_str())),
                    _ => false,
                };
                if fired {
                    let name = String::from_str(detector.phrase());
                    Some(DetectionEvent { phrase_name: name, confidence: CONFIDENCE_FULL })
                } else {
                    None
                }
            },
            WakeWordGate::Scorer(detector) => match signal {
                GateSignal::Score(score) => {
                    let clamped = if *score > CONFIDENCE_FULL {
                        CONFIDENCE_FULL
                    } else {
                        *score
                    };
                    detector.observe(clamped)
                },
                _ => None,
            },
            WakeWordGate::Disabled => None,
        }
    }
}

/// Whether one frame's engine signal fires the wake-word filter.
pub fn detect(gate: &mut WakeWordGate, signal: &GateSignal) -> (r: bool)
    requires
        old(gate).inv(),
    ensures
        final(gate).inv(),
        match *old(gate) {
            WakeWordGate::Grammar(d) => {
                &&& *final(gate) == *old(gate)
                &&& r == (signal matches GateSignal::Finalized(text) && d.accepts(text@))
            },
            WakeWordGate::Scorer(d) => match signal {
                GateSignal::Score(score) => r == streak_step(
                    d.spec_streak(),
                    d.spec_min_windows(),
                    d.spec_threshold(),
                    if score > CONFIDENCE_FULL {
                        CONFIDENCE_FULL
                    } else {
                        *score
                    },
                ).1,
                _ => !r && *final(gate) == *old(gate),
            },
            WakeWordGate::Disabled => !r && *final(gate) == *old(gate),
        },
{
    let event = gate.process(signal);
    match event {
        Some(_) => true,
        None => false,
    }
}

} // verus!
