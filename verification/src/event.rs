//! What a capture loop emits, and what can go wrong on the way.
use crate::capture::dedup::Decision;
use crate::capture::frame::{Frame, FrameView};
use vstd::prelude::*;

verus! {

/// The ways in which capturing from a source can fail or be irregular.
#[derive(Debug, Clone, Copy, PartialEq, Eq, Structural)]
pub enum CaptureError {
    /// The source can no longer be resolved; fatal to its loop.
    SourceUnavailable,
    /// The live device disagrees with the geometry written in the source id;
    /// the loop of that source is never started.
    GeometryMismatch,
    /// A frame could not be acquired this time; retried after a backoff.
    CaptureFailed,
    /// No window holds the focus; a normal condition, not counted as a
    /// failure.
    NoFocusedSource,
    /// The consumer of the output channel is gone; fatal to the loop.
    ChannelClosed,
    /// The clock went backwards since the last accepted capture; the capture
    /// is accepted and the state is reset.
    ClockRegression,
    /// The source id does not have the form `name_width_height_x_y`.
    InvalidSourceId,
    /// The poll interval of the source is zero; its loop is never started.
    ZeroInterval,
}

/// Mathematical content of a [`CaptureResult`].
pub struct CaptureResultView {
    pub monitor_id: Seq<char>,
    pub image: FrameView,
    pub timestamp: i64,
}

/// One accepted capture: the id of its source, the frame, and the time of
/// capture in milliseconds since the Unix epoch.
#[derive(Debug)]
pub struct CaptureResult {
    pub monitor_id: String,
    pub image: Frame,
    pub timestamp: i64,
}

impl View for CaptureResult {
    type V = CaptureResultView;

    open spec fn view(&self) -> CaptureResultView {
        CaptureResultView {
            monitor_id: self.monitor_id@,
            image: self.image@,
            timestamp: self.timestamp,
        }
    }
}

impl CaptureResult {
    pub fn new(monitor_id: String, image: Frame, timestamp: i64) -> (result: Self)
        ensures
            result@ == (CaptureResultView {
                monitor_id: monitor_id@,
                image: image@,
                timestamp,
            }),
    {
        Self { monitor_id, image, timestamp }
    }
}

/// What one capture attempt on a source led to.
#[derive(Debug)]
pub struct CaptureOutcome {
    /// The capture to forward, or `None` when it was suppressed as a
    /// repetition.
    pub event: Option<CaptureResult>,
    /// `Some(CaptureError::ClockRegression)` when the capture was accepted
    /// because the clock had gone backwards.
    pub anomaly: Option<CaptureError>,
}

/// Whether `outcome` is what `decision` asks for: the capture `accepted` is
/// forwarded unless it was suppressed, and a clock regression is reported.
pub open spec fn capture_outcome(
    outcome: CaptureOutcome,
    decision: Decision,
    accepted: CaptureResultView,
) -> bool {
    &&& match decision {
        Decision::Suppress => outcome.event is None,
        _ => outcome.event matches Some(e) && e@ == accepted,
    }
    &&& outcome.anomaly == if decision == Decision::AcceptClockRegression {
        Some(CaptureError::ClockRegression)
    } else {
        None
    }
}

/// Builds the outcome of a capture from the verdict on it.
pub fn outcome_of(decision: Decision, source_id: String, image: Frame, now: i64) -> (outcome:
    CaptureOutcome)
    ensures
        capture_outcome(
            outcome,
            decision,
            CaptureResultView { monitor_id: source_id@, image: image@, timestamp: now },
        ),
{
    match decision {
        Decision::Suppress => CaptureOutcome { event: None, anomaly: None },
        Decision::Accept => CaptureOutcome {
            event: Some(CaptureResult::new(source_id, image, now)),
            anomaly: None,
        },
        Decision::AcceptClockRegression => CaptureOutcome {
            event: Some(CaptureResult::new(source_id, image, now)),
            anomaly: Some(CaptureError::ClockRegression),
        },
    }
}

} // verus!
