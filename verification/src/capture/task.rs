//! The polling loop of one source as a state machine. The driver performs
//! the action that a step returns (poll the source, wait, stop) and reports
//! what came of it as the next event.
use crate::event::CaptureError;
use vstd::prelude::*;

verus! {

/// Number of failures in a row after which a source is abandoned.
pub const MAX_CONSECUTIVE_ERRORS: u32 = 10;

/// The wait after a failure is this many times the poll interval.
pub const BACKOFF_FACTOR: u64 = 3;

/// Why a loop came to its end.
#[derive(Debug, Clone, Copy, PartialEq, Eq, Structural)]
pub enum StopReason {
    /// Cancellation was signalled.
    Cancelled,
    /// The source failed `MAX_CONSECUTIVE_ERRORS` times in a row.
    Abandoned,
    /// The source can no longer be resolved.
    SourceUnavailable,
    /// The consumer of the output channel is gone.
    ChannelClosed,
}

/// Where a loop stands.
#[derive(Debug, Clone, Copy, PartialEq, Eq, Structural)]
pub enum LoopState {
    /// The source is being polled, or is about to be.
    Polling,
    /// The loop waits for the next poll.
    Waiting,
    /// The loop has come to its end.
    Terminated(StopReason),
}

/// What the driver reports to the loop.
#[derive(Debug, Clone, Copy, PartialEq, Eq, Structural)]
pub enum LoopEvent {
    /// Cancellation was signalled: before a poll, while the capture was
    /// being sent, or during a wait.
    Cancelled,
    /// The source cannot produce a frame right now, as a minimized window.
    NotCapturable,
    /// A frame was captured, and forwarded or suppressed.
    Captured,
    /// The poll failed.
    Failed(CaptureError),
    /// The wait is over.
    WaitElapsed,
}

/// What the driver is to do next.
#[derive(Debug, Clone, Copy, PartialEq, Eq, Structural)]
pub enum LoopAction {
    /// Poll the source, unless cancellation is signalled.
    Poll,
    /// Wait this many milliseconds, or until cancellation is signalled.
    Wait(u64),
    /// End the task.
    Stop,
}

/// Mathematical content of a [`CaptureLoop`].
pub struct LoopModel {
    /// Poll interval in milliseconds.
    pub interval: u64,
    /// Failures since the last success.
    pub consecutive_errors: nat,
    pub state: LoopState,
}

/// The wait after a failure: `BACKOFF_FACTOR` times the interval, or the
/// longest wait there is where that does not fit.
pub open spec fn backoff_interval(interval: u64) -> u64 {
    if interval * BACKOFF_FACTOR <= u64::MAX {
        (interval * BACKOFF_FACTOR) as u64
    } else {
        u64::MAX
    }
}

/// Whether a failure counts towards abandoning the source.
pub open spec fn is_counted(error: CaptureError) -> bool {
    error != CaptureError::NoFocusedSource && error != CaptureError::SourceUnavailable && error
        != CaptureError::ChannelClosed
}

/// Whether `event` is an answer to what a loop in `state` is doing.
pub open spec fn expects(state: LoopState, event: LoopEvent) -> bool {
    match state {
        LoopState::Polling => event != LoopEvent::WaitElapsed,
        LoopState::Waiting => event == LoopEvent::WaitElapsed || event == LoopEvent::Cancelled,
        LoopState::Terminated(_) => false,
    }
}

/// The loop after `event`. An event that the loop does not expect changes
/// nothing.
pub open spec fn next_loop(m: LoopModel, event: LoopEvent) -> LoopModel {
    match (m.state, event) {
        (LoopState::Polling, LoopEvent::Cancelled) | (LoopState::Waiting, LoopEvent::Cancelled) => {
            LoopModel { state: LoopState::Terminated(StopReason::Cancelled), ..m }
        },
        (LoopState::Polling, LoopEvent::NotCapturable) | (
            LoopState::Polling,
            LoopEvent::Captured,
        ) => LoopModel { consecutive_errors: 0, state: LoopState::Waiting, ..m },
        (LoopState::Polling, LoopEvent::Failed(error)) => {
            if error == CaptureError::NoFocusedSource {
                LoopModel { state: LoopState::Waiting, ..m }
            } else if error == CaptureError::SourceUnavailable {
                LoopModel { state: LoopState::Terminated(StopReason::SourceUnavailable), ..m }
            } else if error == CaptureError::ChannelClosed {
                LoopModel { state: LoopState::Terminated(StopReason::ChannelClosed), ..m }
            } else if m.consecutive_errors + 1 >= MAX_CONSECUTIVE_ERRORS {
                LoopModel {
                    consecutive_errors: m.consecutive_errors + 1,
                    state: LoopState::Terminated(StopReason::Abandoned),
                    ..m
                }
            } else {
                LoopModel {
                    consecutive_errors: m.consecutive_errors + 1,
                    state: LoopState::Waiting,
                    ..m
                }
            }
        },
        (LoopState::Waiting, LoopEvent::WaitElapsed) => LoopModel { state: LoopState::Polling, ..m },
        _ => m,
    }
}

/// What the driver is to do after `event`, or `None` for an event that the
/// loop does not expect.
pub open spec fn next_action(m: LoopModel, event: LoopEvent) -> Option<LoopAction> {
    if !expects(m.state, event) {
        None
    } else {
        match next_loop(m, event).state {
            LoopState::Polling => Some(LoopAction::Poll),
            LoopState::Terminated(_) => Some(LoopAction::Stop),
            LoopState::Waiting => match event {
                LoopEvent::Failed(error) if is_counted(error) => Some(
                    LoopAction::Wait(backoff_interval(m.interval)),
                ),
                _ => Some(LoopAction::Wait(m.interval)),
            },
        }
    }
}

/// The polling loop of one source.
#[derive(Debug)]
pub struct CaptureLoop {
    interval: u64,
    consecutive_errors: u32,
    state: LoopState,
}

impl View for CaptureLoop {
    type V = LoopModel;

    closed spec fn view(&self) -> LoopModel {
        LoopModel {
            interval: self.interval,
            consecutive_errors: self.consecutive_errors as nat,
            state: self.state,
        }
    }
}

/// Whether a loop is one that can arise: its interval is positive, and it
/// has come to its end if and only if it has failed often enough.
pub open spec fn loop_invariant(m: LoopModel) -> bool {
    &&& m.interval > 0
    &&& m.consecutive_errors <= MAX_CONSECUTIVE_ERRORS
    &&& m.consecutive_errors == MAX_CONSECUTIVE_ERRORS <==> m.state == LoopState::Terminated(
        StopReason::Abandoned,
    )
}

impl CaptureLoop {
    #[verifier::type_invariant]
    spec fn well_formed(self) -> bool {
        loop_invariant(self@)
    }

    /// A loop with the poll interval `interval`, about to poll for the first
    /// time; `None` for an interval of zero.
    pub fn new(interval: u64) -> (created: Option<Self>)
        ensures
            created is Some <==> interval > 0,
            created matches Some(l) ==> l@ == (LoopModel {
                interval,
                consecutive_errors: 0,
                state: LoopState::Polling,
            }),
    {
        if interval == 0 {
            None
        } else {
            Some(CaptureLoop { interval, consecutive_errors: 0, state: LoopState::Polling })
        }
    }

    /// Where the loop stands.
    pub fn state(&self) -> (state: LoopState)
        ensures
            state == self@.state,
            loop_invariant(self@),
    {
        proof {
            use_type_invariant(self);
        }
        self.state
    }

    /// Failures since the last success.
    pub fn consecutive_errors(&self) -> (count: u32)
        ensures
            count == self@.consecutive_errors,
    {
        self.consecutive_errors
    }

    /// Poll interval in milliseconds.
    pub fn interval(&self) -> (interval: u64)
        ensures
            interval == self@.interval,
    {
        self.interval
    }

    /// Whether the loop has come to its end.
    pub fn is_terminated(&self) -> (terminated: bool)
        ensures
            terminated == (self@.state is Terminated),
    {
        match self.state {
            LoopState::Terminated(_) => true,
            _ => false,
        }
    }

    /// Takes the next event and says what the driver is to do. An event that
    /// does not answer what the loop is doing is ignored: the loop stays as
    /// it is and `None` is returned.
    pub fn step(&mut self, event: LoopEvent) -> (action: Option<LoopAction>)
        ensures
            final(self)@ == next_loop(old(self)@, event),
            action == next_action(old(self)@, event),
            action is Some <==> expects(old(self)@.state, event),
    {
        proof {
            use_type_invariant(&*self);
        }
        let interval = self.interval;
        let errors = self.consecutive_errors;
        match (self.state, event) {
            (LoopState::Polling, LoopEvent::Cancelled) | (
                LoopState::Waiting,
                LoopEvent::Cancelled,
            ) => {
                *self = CaptureLoop {
                    interval,
                    consecutive_errors: errors,
                    state: LoopState::Terminated(StopReason::Cancelled),
                };
                Some(LoopAction::Stop)
            },
            (LoopState::Polling, LoopEvent::NotCapturable) | (
                LoopState::Polling,
                LoopEvent::Captured,
            ) => {
                *self = CaptureLoop { interval, consecutive_errors: 0, state: LoopState::Waiting };
                Some(LoopAction::Wait(interval))
            },
            (LoopState::Polling, LoopEvent::Failed(error)) => {
                match error {
                    CaptureError::NoFocusedSource => {
                        *self = CaptureLoop {
                            interval,
                            consecutive_errors: errors,
                            state: LoopState::Waiting,
                        };
                        Some(LoopAction::Wait(interval))
                    },
                    CaptureError::SourceUnavailable => {
                        *self = CaptureLoop {
                            interval,
                            consecutive_errors: errors,
                            state: LoopState::Terminated(StopReason::SourceUnavailable),
                        };
                        Some(LoopAction::Stop)
                    },
                    CaptureError::ChannelClosed => {
                        *self = CaptureLoop {
                            interval,
                            consecutive_errors: errors,
                            state: LoopState::Terminated(StopReason::ChannelClosed),
                        };
                        Some(LoopAction::Stop)
                    },
                    _ => {
                        let count = errors + 1;
                        if count >= MAX_CONSECUTIVE_ERRORS {
                            *self = CaptureLoop {
                                interval,
                                consecutive_errors: count,
                                state: LoopState::Terminated(StopReason::Abandoned),
                            };
                            Some(LoopAction::Stop)
                        } else {
                            *self = CaptureLoop {
                                interval,
                                consecutive_errors: count,
                                state: LoopState::Waiting,
                            };
                            let backoff = if interval <= u64::MAX / BACKOFF_FACTOR {
                                interval * BACKOFF_FACTOR
                            } else {
                                u64::MAX
                            };
                            Some(LoopAction::Wait(backoff))
                        }
                    },
                }
            },
            (LoopState::Waiting, LoopEvent::WaitElapsed) => {
                *self = CaptureLoop {
                    interval,
                    consecutive_errors: errors,
                    state: LoopState::Polling,
                };
                Some(LoopAction::Poll)
            },
            _ => None,
        }
    }
}

/// The loop after one poll with the given outcome and, if the loop then
/// waits, after the wait has run its full time.
pub open spec fn after_poll(m: LoopModel, outcome: LoopEvent) -> LoopModel {
    let polled = next_loop(m, outcome);
    if polled.state == LoopState::Waiting {
        next_loop(polled, LoopEvent::WaitElapsed)
    } else {
        polled
    }
}

/// The loop after a series of polls, none of them cut short.
pub open spec fn after_polls(m: LoopModel, outcomes: Seq<LoopEvent>) -> LoopModel
    decreases outcomes.len(),
{
    if outcomes.len() == 0 {
        m
    } else {
        after_poll(after_polls(m, outcomes.drop_last()), outcomes.last())
    }
}

/// Number of counted failures among `outcomes`.
pub open spec fn counted_failures(outcomes: Seq<LoopEvent>) -> nat
    decreases outcomes.len(),
{
    if outcomes.len() == 0 {
        0
    } else {
        counted_failures(outcomes.drop_last()) + match outcomes.last() {
            LoopEvent::Failed(error) if is_counted(error) => 1nat,
            _ => 0nat,
        }
    }
}

/// Whether every outcome is a failed capture or the absence of a focused
/// window.
pub open spec fn only_failures_and_no_focus(outcomes: Seq<LoopEvent>) -> bool {
    forall|i: int|
        0 <= i < outcomes.len() ==> #[trigger] outcomes[i] == LoopEvent::Failed(
            CaptureError::CaptureFailed,
        ) || outcomes[i] == LoopEvent::Failed(CaptureError::NoFocusedSource)
}

/// A loop that has just succeeded, or has just started, and then meets only
/// failed captures and polls without a focused window, goes on polling as
/// long as fewer than `MAX_CONSECUTIVE_ERRORS` captures have failed, and has
/// counted exactly the failed ones. With the failure that brings the count
/// to `MAX_CONSECUTIVE_ERRORS` it is abandoned. Polls without a focused
/// window add nothing to the count.
pub proof fn law_abandoned_after_ten_failures(m: LoopModel, outcomes: Seq<LoopEvent>)
    requires
        m.state == LoopState::Polling,
        m.consecutive_errors == 0,
        only_failures_and_no_focus(outcomes),
        counted_failures(outcomes) <= MAX_CONSECUTIVE_ERRORS,
        counted_failures(outcomes) == MAX_CONSECUTIVE_ERRORS ==> outcomes.last()
            == LoopEvent::Failed(CaptureError::CaptureFailed),
    ensures
        after_polls(m, outcomes).consecutive_errors == counted_failures(outcomes),
        counted_failures(outcomes) < MAX_CONSECUTIVE_ERRORS ==> after_polls(m, outcomes).state
            == LoopState::Polling,
        counted_failures(outcomes) == MAX_CONSECUTIVE_ERRORS ==> after_polls(m, outcomes).state
            == LoopState::Terminated(StopReason::Abandoned),
    decreases outcomes.len(),
{
    if outcomes.len() > 0 {
        let earlier = outcomes.drop_last();
        assert(only_failures_and_no_focus(earlier)) by {
            assert forall|i: int| 0 <= i < earlier.len() implies #[trigger] earlier[i]
                == LoopEvent::Failed(CaptureError::CaptureFailed) || earlier[i]
                == LoopEvent::Failed(CaptureError::NoFocusedSource) by {
                assert(earlier[i] == outcomes[i]);
            }
        }
        assert(outcomes.last() == outcomes[outcomes.len() - 1]);
        if counted_failures(earlier) == MAX_CONSECUTIVE_ERRORS {
            // Then the last outcome adds nothing, so it is no failed
            // capture, yet the total is at the ceiling: excluded.
            assert(false);
        }
        law_abandoned_after_ten_failures(m, earlier);
    }
}

/// Cancellation ends a loop at once from wherever it stands: a waiting loop
/// stops without the wait running out, and a polling loop stops without a
/// capture.
pub proof fn law_cancellation_stops(m: LoopModel)
    requires
        m.state == LoopState::Waiting || m.state == LoopState::Polling,
    ensures
        next_loop(m, LoopEvent::Cancelled).state == LoopState::Terminated(StopReason::Cancelled),
        next_action(m, LoopEvent::Cancelled) == Some(LoopAction::Stop),
{
}

/// A loop that has come to its end stays there, whatever is reported.
pub proof fn law_terminated_is_final(m: LoopModel, event: LoopEvent)
    requires
        m.state is Terminated,
    ensures
        next_loop(m, event) == m,
        next_action(m, event) is None,
{
}

/// A success clears the count of failures; a poll without a focused window
/// leaves it as it is; both lead to a wait of the normal interval.
pub proof fn law_success_and_no_focus(m: LoopModel)
    requires
        m.state == LoopState::Polling,
    ensures
        next_loop(m, LoopEvent::Captured).consecutive_errors == 0,
        next_loop(m, LoopEvent::NotCapturable).consecutive_errors == 0,
        next_loop(m, LoopEvent::Failed(CaptureError::NoFocusedSource)).consecutive_errors
            == m.consecutive_errors,
        next_action(m, LoopEvent::Captured) == Some(LoopAction::Wait(m.interval)),
        next_action(m, LoopEvent::NotCapturable) == Some(LoopAction::Wait(m.interval)),
        next_action(m, LoopEvent::Failed(CaptureError::NoFocusedSource)) == Some(
            LoopAction::Wait(m.interval),
        ),
{
}

} // verus!
