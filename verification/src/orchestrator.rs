//! The orchestrator: the finite-state loop coordinating the frame channel,
//! the wake-word detector, the recognizer and the command registry.
//!
//! Two states exist, `Idle` and `Capturing`, and exactly one is active at
//! any time.  While idle, every frame goes to the wake-word detector; a
//! detection starts a capture with a fresh utterance and a hard wall-clock
//! deadline.  While capturing, frames are appended to the utterance in
//! arrival order and the detector is not consulted: a wake word spoken
//! mid-utterance is ordinary speech, by design.  When the deadline passes
//! — with or without further frames — the capture ends: a non-empty
//! utterance is handed out for transcription, an empty one is discarded
//! without ever invoking the recognizer, and the orchestrator is idle
//! again.  Recognition and dispatch failures are reported and recovered;
//! they never leave the idle state behind.

use vstd::prelude::*;

use crate::commands::{command_matches, CommandLibrary};
use crate::stt::SttError;
use crate::text::{lower_of, trim_of};
use crate::wakeword::DetectionEvent;

verus! {

/// Capture window after a wake-word detection, in milliseconds.
pub const CAPTURE_TIMEOUT_MS: u64 = 15000;

/// How long the orchestrator waits for a frame before re-checking its
/// deadline, in milliseconds.
pub const POLL_INTERVAL_MS: u64 = 100;

/// The two orchestrator states.
#[derive(Debug, Clone, Copy, PartialEq, Eq, Structural)]
pub enum ListenState {
    /// Feeding the wake-word detector, no capture in progress.
    Idle,
    /// Accumulating an utterance until the deadline.
    Capturing,
}

/// The orchestrator's abstract state: everything its transitions depend
/// on.
pub struct OrchModel {
    pub capturing: bool,
    pub utterance: Seq<i16>,
    pub deadline_ms: u64,
    pub capture_timeout_ms: u64,
}

/// What one step asked the surrounding loop to do.
pub enum StepKind {
    /// Idle, nothing detected: keep listening.
    Listening,
    /// A wake-word detection started a capture: acknowledge it.
    Woken,
    /// A frame was appended to the utterance.
    Captured,
    /// Capturing, deadline not reached, no frame consumed.
    Waiting,
    /// The capture timed out with this non-empty utterance: transcribe it.
    TranscribePending(Seq<i16>),
    /// The capture timed out empty: skip the recognizer entirely.
    TimedOutSilent,
    /// The frame producer is gone: end the loop.
    Shutdown,
}

/// Addition that sticks to the clock's ceiling instead of wrapping.
pub open spec fn sat_add_u64(a: u64, b: u64) -> u64 {
    if a + b > u64::MAX {
        u64::MAX
    } else {
        (a + b) as u64
    }
}

/// The model after a capture ends: idle, utterance discarded.
pub open spec fn capture_ended(pre: OrchModel) -> OrchModel {
    OrchModel {
        capturing: false,
        utterance: Seq::<i16>::empty(),
        deadline_ms: pre.deadline_ms,
        capture_timeout_ms: pre.capture_timeout_ms,
    }
}

/// The transition taken on an incoming frame.  Idle: the detector's verdict
/// decides between staying idle and starting a capture whose deadline is
/// the current time plus the capture timeout.  Capturing: the frame is
/// appended (the detector's verdict is ignored), and once the deadline has
/// passed the capture ends — toward transcription if anything was heard.
pub open spec fn frame_step(pre: OrchModel, frame: Seq<i16>, detected: bool, now_ms: u64) -> (
    OrchModel,
    StepKind,
) {
    if !pre.capturing {
        if detected {
            (
                OrchModel {
                    capturing: true,
                    utterance: Seq::<i16>::empty(),
                    deadline_ms: sat_add_u64(now_ms, pre.capture_timeout_ms),
                    capture_timeout_ms: pre.capture_timeout_ms,
                },
                StepKind::Woken,
            )
        } else {
            (pre, StepKind::Listening)
        }
    } else {
        let extended = pre.utterance + frame;
        if now_ms > pre.deadline_ms {
            if extended.len() > 0 {
                (capture_ended(pre), StepKind::TranscribePending(extended))
            } else {
                (capture_ended(pre), StepKind::TimedOutSilent)
            }
        } else {
            (
                OrchModel {
                    capturing: true,
                    utterance: extended,
                    deadline_ms: pre.deadline_ms,
                    capture_timeout_ms: pre.capture_timeout_ms,
                },
                StepKind::Captured,
            )
        }
    }
}

/// The transition taken when the frame wait times out: the deadline is
/// re-checked even though no frame arrived, so a silent microphone still
/// times out.
pub open spec fn poll_step(pre: OrchModel, now_ms: u64) -> (OrchModel, StepKind) {
    if !pre.capturing {
        (pre, StepKind::Listening)
    } else if now_ms > pre.deadline_ms {
        if pre.utterance.len() > 0 {
            (capture_ended(pre), StepKind::TranscribePending(pre.utterance))
        } else {
            (capture_ended(pre), StepKind::TimedOutSilent)
        }
    } else {
        (pre, StepKind::Waiting)
    }
}

/// State exclusivity: whatever the orchestrator reports is exactly one of
/// the two states — `Idle` or `Capturing`, never both, never neither.
pub proof fn lemma_state_exclusivity(state: ListenState)
    ensures
        (state is Idle) != (state is Capturing),
{
}

/// Timeout correctness: a capture that heard nothing ends at the first
/// deadline check after the deadline, back to idle, without ever asking
/// for a transcription.
pub proof fn lemma_silent_capture_times_out(pre: OrchModel, now_ms: u64)
    requires
        pre.capturing,
        pre.utterance.len() == 0,
        now_ms > pre.deadline_ms,
    ensures
        !poll_step(pre, now_ms).0.capturing,
        poll_step(pre, now_ms).1 is TimedOutSilent,
{
}

/// A detection while idle starts the capture and fixes its deadline at
/// the detection time plus the capture timeout.
pub proof fn lemma_wake_starts_capture(pre: OrchModel, frame: Seq<i16>, now_ms: u64)
    requires
        !pre.capturing,
    ensures
        frame_step(pre, frame, true, now_ms).0.capturing,
        frame_step(pre, frame, true, now_ms).0.utterance.len() == 0,
        frame_step(pre, frame, true, now_ms).0.deadline_ms == sat_add_u64(
            now_ms,
            pre.capture_timeout_ms,
        ),
        frame_step(pre, frame, true, now_ms).1 is Woken,
{
}

/// Frame ordering within a capture: each frame arriving before the
/// deadline is appended after everything already heard, so the utterance
/// lists the frames' samples in arrival order.
pub proof fn lemma_capture_preserves_order(
    pre: OrchModel,
    frame: Seq<i16>,
    detected: bool,
    now_ms: u64,
)
    requires
        pre.capturing,
        now_ms <= pre.deadline_ms,
    ensures
        frame_step(pre, frame, detected, now_ms).0.utterance == pre.utterance + frame,
        frame_step(pre, frame, detected, now_ms).1 is Captured,
{
}

/// The utterance after appending each frame of `frames` in arrival order.
pub open spec fn capture_all(utterance: Seq<i16>, frames: Seq<Seq<i16>>) -> Seq<i16>
    decreases frames.len(),
{
    if frames.len() == 0 {
        utterance
    } else {
        capture_all(utterance + frames[0], frames.drop_first())
    }
}

/// Frame ordering over a whole capture: for any sequence of frames
/// arriving while capturing, the utterance is exactly the frames'
/// samples, concatenated in arrival order, after whatever was already
/// heard.
pub proof fn lemma_utterance_lists_frames_in_order(utterance: Seq<i16>, frames: Seq<Seq<i16>>)
    ensures
        capture_all(utterance, frames) == utterance + frames.flatten(),
    decreases frames.len(),
{
    if frames.len() == 0 {
        assert(frames.flatten() =~= Seq::<i16>::empty());
        assert(capture_all(utterance, frames) =~= utterance + frames.flatten());
    } else {
        lemma_utterance_lists_frames_in_order(utterance + frames[0], frames.drop_first());
        assert(frames.flatten() == frames[0] + frames.drop_first().flatten());
        assert((utterance + frames[0]) + frames.drop_first().flatten() =~= utterance + (frames[0]
            + frames.drop_first().flatten()));
    }
}

/// The model after a run of frames arrives during a capture, each handled
/// at time `t`.
pub open spec fn capture_run(pre: OrchModel, frames: Seq<Seq<i16>>, t: u64) -> OrchModel
    decreases frames.len(),
{
    if frames.len() == 0 {
        pre
    } else {
        capture_run(frame_step(pre, frames[0], false, t).0, frames.drop_first(), t)
    }
}

/// A run of frames arriving before the deadline keeps the capture open,
/// keeps its deadline, and buffers every sample in arrival order.
pub proof fn lemma_capture_run(pre: OrchModel, frames: Seq<Seq<i16>>, t: u64)
    requires
        pre.capturing,
        t <= pre.deadline_ms,
    ensures
        capture_run(pre, frames, t).capturing,
        capture_run(pre, frames, t).deadline_ms == pre.deadline_ms,
        capture_run(pre, frames, t).capture_timeout_ms == pre.capture_timeout_ms,
        capture_run(pre, frames, t).utterance == pre.utterance + frames.flatten(),
    decreases frames.len(),
{
    if frames.len() == 0 {
        assert(frames.flatten() =~= Seq::<i16>::empty());
        assert(capture_run(pre, frames, t).utterance =~= pre.utterance + frames.flatten());
    } else {
        let stepped = frame_step(pre, frames[0], false, t).0;
        lemma_capture_run(stepped, frames.drop_first(), t);
        assert(frames.flatten() == frames[0] + frames.drop_first().flatten());
        assert((pre.utterance + frames[0]) + frames.drop_first().flatten() =~= pre.utterance
            + frames.flatten());
    }
}

/// The end-to-end run, orchestration side: from idle, a detection at `t0`
/// starts one capture; frames arriving before the deadline are buffered
/// in order; the first deadline check after the deadline asks for exactly
/// one transcription, carrying every buffered sample, and the
/// orchestrator is idle again.  What the transcript resolves to, and with
/// what outcome the command runs, is fixed by `process_transcription` and
/// `action_outcome`.
pub proof fn lemma_end_to_end(
    pre: OrchModel,
    wake_frame: Seq<i16>,
    frames: Seq<Seq<i16>>,
    t0: u64,
    t_capture: u64,
    t_poll: u64,
)
    requires
        !pre.capturing,
        t_capture <= sat_add_u64(t0, pre.capture_timeout_ms),
        t_poll > sat_add_u64(t0, pre.capture_timeout_ms),
        frames.flatten().len() > 0,
    ensures
        ({
            let woken = frame_step(pre, wake_frame, true, t0);
            let filled = capture_run(woken.0, frames, t_capture);
            &&& woken.1 is Woken
            &&& poll_step(filled, t_poll).1 == StepKind::TranscribePending(frames.flatten())
            &&& !poll_step(filled, t_poll).0.capturing
            &&& poll_step(filled, t_poll).0.utterance.len() == 0
        }),
{
    let woken = frame_step(pre, wake_frame, true, t0).0;
    lemma_capture_run(woken, frames, t_capture);
    assert(Seq::<i16>::empty() + frames.flatten() =~= frames.flatten());
}

/// A wake word spoken mid-utterance does not restart the capture: while
/// capturing, the detector's verdict changes nothing.
pub proof fn lemma_wake_ignored_while_capturing(pre: OrchModel, frame: Seq<i16>, now_ms: u64)
    requires
        pre.capturing,
    ensures
        frame_step(pre, frame, true, now_ms) == frame_step(pre, frame, false, now_ms),
{
}

/// What one step asked the surrounding loop to do, with the utterance to
/// transcribe when there is one.
pub enum StepAction {
    Listening,
    Woken,
    Captured,
    Waiting,
    TranscribePending(Vec<i16>),
    TimedOutSilent,
    Shutdown,
}

/// The abstract request an action stands for.
pub open spec fn kind_of(a: StepAction) -> StepKind {
    match a {
        StepAction::Listening => StepKind::Listening,
        StepAction::Woken => StepKind::Woken,
        StepAction::Captured => StepKind::Captured,
        StepAction::Waiting => StepKind::Waiting,
        StepAction::TranscribePending(utterance) => StepKind::TranscribePending(utterance@),
        StepAction::TimedOutSilent => StepKind::TimedOutSilent,
        StepAction::Shutdown => StepKind::Shutdown,
    }
}

/// What the bounded wait for the next frame returned.
pub enum RecvEvent {
    /// A frame arrived.
    Frame(Vec<i16>),
    /// The wait timed out with no frame.
    TimedOut,
    /// The producer side closed or failed.
    Closed,
}

/// The orchestrator's concrete state.
pub struct Orchestrator {
    state: ListenState,
    utterance: Vec<i16>,
    deadline_ms: u64,
    capture_timeout_ms: u64,
}

impl Orchestrator {
    /// The abstract state this concrete state stands for.
    pub closed spec fn model(&self) -> OrchModel {
        OrchModel {
            capturing: self.state is Capturing,
            utterance: self.utterance@,
            deadline_ms: self.deadline_ms,
            capture_timeout_ms: self.capture_timeout_ms,
        }
    }

    /// An utterance exists only while capturing.
    pub open spec fn inv(&self) -> bool {
        !self.model().capturing ==> self.model().utterance.len() == 0
    }

    /// A fresh orchestrator: idle, nothing buffered.
    pub fn new(capture_timeout_ms: u64) -> (r: Orchestrator)
        ensures
            r.inv(),
            !r.model().capturing,
            r.model().utterance.len() == 0,
            r.model().capture_timeout_ms == capture_timeout_ms,
    {
        Orchestrator {
            state: ListenState::Idle,
            utterance: Vec::new(),
            deadline_ms: 0,
            capture_timeout_ms,
        }
    }

    /// The active state, exactly one of the two.
    pub fn state(&self) -> (r: ListenState)
        ensures
            r == ListenState::Capturing <==> self.model().capturing,
            r == ListenState::Idle <==> !self.model().capturing,
    {
        self.state
    }

    pub fn is_idle(&self) -> (r: bool)
        ensures
            r == !self.model().capturing,
    {
        match self.state {
            ListenState::Idle => true,
            ListenState::Capturing => false,
        }
    }

    pub fn is_capturing(&self) -> (r: bool)
        ensures
            r == self.model().capturing,
    {
        match self.state {
            ListenState::Idle => false,
            ListenState::Capturing => true,
        }
    }

    /// Consumes one frame: the detector's verdict on it while idle, the frame
    /// itself while capturing.  The concrete step is exactly the model
    /// transition `frame_step`.
    pub fn handle_frame(
        &mut self,
        frame: &Vec<i16>,
        detection: Option<&DetectionEvent>,
        now_ms: u64,
    ) -> (a: StepAction)
        requires
            old(self).inv(),
        ensures
            final(self).inv(),
            final(self).model() == frame_step(
                old(self).model(),
                frame@,
                detection is Some,
                now_ms,
            ).0,
            kind_of(a) == frame_step(old(self).model(), frame@, detection is Some, now_ms).1,
    {
        match self.state {
            ListenState::Idle => match detection {
                Some(_) => {
                    self.state = ListenState::Capturing;
                    self.utterance = Vec::new();
                    self.deadline_ms = if now_ms <= u64::MAX - self.capture_timeout_ms {
                        now_ms + self.capture_timeout_ms
                    } else {
                        u64::MAX
                    };
                    StepAction::Woken
                },
                None => StepAction::Listening,
            },
            ListenState::Capturing => {
                self.utterance.extend_from_slice(frame.as_slice());
                proof {
                    assert(self.utterance@ =~= old(self).utterance@ + frame@);
                }
                if now_ms > self.deadline_ms {
                    self.state = ListenState::Idle;
                    if self.utterance.len() > 0 {
                        let utterance = self.utterance.split_off(0);
                        proof {
                            assert(utterance@ =~= old(self).utterance@ + frame@);
                            assert(self.utterance@ =~= Seq::<i16>::empty());
                        }
                        StepAction::TranscribePending(utterance)
                    } else {
                        proof {
                            assert(self.utterance@ =~= Seq::<i16>::empty());
                        }
                        StepAction::TimedOutSilent
                    }
                } else {
                    StepAction::Captured
                }
            },
        }
    }

    /// Re-checks the deadline when no frame arrived within the poll
    /// interval.  The concrete step is exactly the model transition
    /// `poll_step`.
    pub fn poll(&mut self, now_ms: u64) -> (a: StepAction)
        requires
            old(self).inv(),
        ensures
            final(self).inv(),
            final(self).model() == poll_step(old(self).model(), now_ms).0,
            kind_of(a) == poll_step(old(self).model(), now_ms).1,
    {
        match self.state {
            ListenState::Idle => StepAction::Listening,
            ListenState::Capturing => {
                if now_ms > self.deadline_ms {
                    self.state = ListenState::Idle;
                    if self.utterance.len() > 0 {
                        let utterance = self.utterance.split_off(0);
                        proof {
                            assert(utterance@ =~= old(self).utterance@);
                            assert(self.utterance@ =~= Seq::<i16>::empty());
                        }
                        StepAction::TranscribePending(utterance)
                    } else {
                        proof {
                            assert(self.utterance@ =~= Seq::<i16>::empty());
                        }
                        StepAction::TimedOutSilent
                    }
                } else {
                    StepAction::Waiting
                }
            },
        }
    }

    /// Consumes one outcome of the bounded frame wait: a frame is handled,
    /// a timed-out wait re-checks the deadline, and a closed channel — the
    /// producer side died — asks the loop to shut down, the only loop-exit
    /// transition, leaving the state untouched.
    pub fn handle_recv(
        &mut self,
        event: RecvEvent,
        detection: Option<&DetectionEvent>,
        now_ms: u64,
    ) -> (a: StepAction)
        requires
            old(self).inv(),
        ensures
            final(self).inv(),
            match event {
                RecvEvent::Frame(frame) => {
                    &&& final(self).model() == frame_step(
                        old(self).model(),
                        frame@,
                        detection is Some,
                        now_ms,
                    ).0
                    &&& kind_of(a) == frame_step(
                        old(self).model(),
                        frame@,
                        detection is Some,
                        now_ms,
                    ).1
                },
                RecvEvent::TimedOut => {
                    &&& final(self).model() == poll_step(old(self).model(), now_ms).0
                    &&& kind_of(a) == poll_step(old(self).model(), now_ms).1
                },
                RecvEvent::Closed => *final(self) == *old(self) && a is Shutdown,
            },
    {
        match event {
            RecvEvent::Frame(frame) => self.handle_frame(&frame, detection, now_ms),
            RecvEvent::TimedOut => self.poll(now_ms),
            RecvEvent::Closed => StepAction::Shutdown,
        }
    }
}

/// How a finished transcription was resolved.
#[derive(Debug, Clone, Copy, PartialEq, Eq, Structural)]
pub enum CommandOutcome {
    /// The recognizer returned empty text: nothing was said.
    NothingRecognized,
    /// The text matched the command at this registry position: dispatch it.
    Matched(usize),
    /// The text matched no command; reported as an error-class outcome.
    NotFound,
    /// The recognizer failed; reported, never fatal.
    RecognitionFailed(SttError),
}

/// Resolves a transcription result against the registry.  Empty text
/// short-circuits; non-empty text resolves to the first matching command
/// in declaration order, or to `NotFound`; a recognizer error is carried
/// through for reporting.
pub fn process_transcription(result: &Result<String, SttError>, library: &CommandLibrary) -> (o:
    CommandOutcome)
    ensures
        match result {
            Ok(text) => {
                if text@.len() == 0 {
                    o == CommandOutcome::NothingRecognized
                } else {
                    match o {
                        CommandOutcome::Matched(i) => {
                            &&& i < library.commands@.len()
                            &&& command_matches(library.commands@[i as int], lower_of(trim_of(text@)))
                            &&& forall|j: int|
                                0 <= j < i ==> !command_matches(
                                    #[trigger] library.commands@[j],
                                    lower_of(trim_of(text@)),
                                )
                        },
                        CommandOutcome::NotFound => forall|j: int|
                            0 <= j < library.commands@.len() ==> !command_matches(
                                #[trigger] library.commands@[j],
                                lower_of(trim_of(text@)),
                            ),
                        _ => false,
                    }
                }
            },
            Err(e) => o == CommandOutcome::RecognitionFailed(*e),
        },
{
    match result {
        Ok(text) => {
            if text.as_str().is_empty() {
                CommandOutcome::NothingRecognized
            } else {
                match library.find_index_by_text(text.as_str()) {
                    Some(i) => CommandOutcome::Matched(i),
                    None => CommandOutcome::NotFound,
                }
            }
        },
        Err(e) => CommandOutcome::RecognitionFailed(*e),
    }
}

} // verus!
