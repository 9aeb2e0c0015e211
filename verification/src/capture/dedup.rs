//! The decision whether a capture differs enough from the last accepted one.
use crate::capture::utils::{distance, hamming_distance};
use vstd::prelude::*;

verus! {

/// Mathematical content of a [`DedupState`].
pub struct DedupStateView {
    pub last_capture_time: Option<i64>,
    pub last_capture_dhash: Option<u64>,
    pub last_window_identity: Option<Seq<char>>,
}

/// What a source remembers of its last accepted capture. Times are in
/// milliseconds since the Unix epoch.
#[derive(Debug)]
pub struct DedupState {
    pub last_capture_time: Option<i64>,
    pub last_capture_dhash: Option<u64>,
    /// Identity of the window of the last accepted capture; `None` for a
    /// display.
    pub last_window_identity: Option<String>,
}

/// The verdict on one capture.
#[derive(Debug, Clone, Copy, PartialEq, Eq, Structural)]
pub enum Decision {
    /// Forward the capture and remember it.
    Accept,
    /// Forward the capture and remember it: the clock went backwards.
    AcceptClockRegression,
    /// Drop the capture; the state stays as it is.
    Suppress,
}

/// The view of an optional string.
pub open spec fn identity_view(identity: Option<String>) -> Option<Seq<char>> {
    match identity {
        Some(s) => Some(s@),
        None => None,
    }
}

impl View for DedupState {
    type V = DedupStateView;

    open spec fn view(&self) -> DedupStateView {
        DedupStateView {
            last_capture_time: self.last_capture_time,
            last_capture_dhash: self.last_capture_dhash,
            last_window_identity: identity_view(self.last_window_identity),
        }
    }
}

/// The state of a source that has not accepted a capture yet.
pub open spec fn empty_state() -> DedupStateView {
    DedupStateView {
        last_capture_time: None,
        last_capture_dhash: None,
        last_window_identity: None,
    }
}

/// Whether an accepted capture is on record.
pub open spec fn has_prior(state: DedupStateView) -> bool {
    state.last_capture_time is Some && state.last_capture_dhash is Some
}

/// Whether `now` lies before the last accepted capture.
pub open spec fn clock_regressed(state: DedupStateView, now: i64) -> bool {
    has_prior(state) && now < state.last_capture_time->0
}

/// The verdict of the policy on a capture taken at `now` with fingerprint
/// `dhash` from the window `identity` (`None` for a display).
pub open spec fn decide(
    state: DedupStateView,
    now: i64,
    dhash: u64,
    identity: Option<Seq<char>>,
    enforce_interval: u64,
    dhash_threshold: u32,
) -> Decision {
    if !has_prior(state) {
        Decision::Accept
    } else if now < state.last_capture_time->0 {
        Decision::AcceptClockRegression
    } else if state.last_window_identity != identity {
        Decision::Accept
    } else if now - state.last_capture_time->0 >= enforce_interval {
        Decision::Accept
    } else if distance(dhash, state.last_capture_dhash->0) >= dhash_threshold {
        Decision::Accept
    } else {
        Decision::Suppress
    }
}

/// The state after the policy has seen a capture: the capture itself if it
/// was accepted, the old state if it was suppressed.
pub open spec fn state_after(
    state: DedupStateView,
    now: i64,
    dhash: u64,
    identity: Option<Seq<char>>,
    enforce_interval: u64,
    dhash_threshold: u32,
) -> DedupStateView {
    if decide(state, now, dhash, identity, enforce_interval, dhash_threshold)
        == Decision::Suppress {
        state
    } else {
        DedupStateView {
            last_capture_time: Some(now),
            last_capture_dhash: Some(dhash),
            last_window_identity: identity,
        }
    }
}

fn same_identity(a: &Option<String>, b: &Option<String>) -> (same: bool)
    ensures
        same == (identity_view(*a) == identity_view(*b)),
{
    match a {
        Some(x) => match b {
            Some(y) => *x == *y,
            None => false,
        },
        None => match b {
            Some(_) => false,
            None => true,
        },
    }
}

impl DedupState {
    /// The state of a source that has not accepted a capture yet.
    pub fn new() -> (state: Self)
        ensures
            state@ == empty_state(),
    {
        DedupState {
            last_capture_time: None,
            last_capture_dhash: None,
            last_window_identity: None,
        }
    }

    /// Applies the policy to a capture and, unless it is suppressed, records
    /// it as the last accepted one.
    pub fn observe(
        &mut self,
        now: i64,
        dhash: u64,
        identity: Option<String>,
        enforce_interval: u64,
        dhash_threshold: u32,
    ) -> (decision: Decision)
        ensures
            decision == decide(
                old(self)@,
                now,
                dhash,
                identity_view(identity),
                enforce_interval,
                dhash_threshold,
            ),
            final(self)@ == state_after(
                old(self)@,
                now,
                dhash,
                identity_view(identity),
                enforce_interval,
                dhash_threshold,
            ),
    {
        let mut decision = Decision::Accept;
        match self.last_capture_time {
            Some(last_time) => match self.last_capture_dhash {
                Some(last_hash) => {
                    if now < last_time {
                        decision = Decision::AcceptClockRegression;
                    } else if same_identity(&self.last_window_identity, &identity) {
                        let elapsed: i128 = (now as i128) - (last_time as i128);
                        let time_too_soon = elapsed < (enforce_interval as i128);
                        let hash_too_similar = hamming_distance(dhash, last_hash)
                            < dhash_threshold;
                        if time_too_soon && hash_too_similar {
                            decision = Decision::Suppress;
                        }
                    }
                },
                None => {},
            },
            None => {},
        }
        match decision {
            Decision::Suppress => {},
            _ => {
                self.last_capture_time = Some(now);
                self.last_capture_dhash = Some(dhash);
                self.last_window_identity = identity;
            },
        }
        decision
    }
}

/// The state of a source right after it has accepted a capture.
pub open spec fn recorded(time: i64, dhash: u64, identity: Option<Seq<char>>) -> DedupStateView {
    DedupStateView {
        last_capture_time: Some(time),
        last_capture_dhash: Some(dhash),
        last_window_identity: identity,
    }
}

/// The first capture of a source is accepted.
pub proof fn law_first_capture_accepted(
    now: i64,
    dhash: u64,
    identity: Option<Seq<char>>,
    enforce_interval: u64,
    dhash_threshold: u32,
)
    ensures
        decide(empty_state(), now, dhash, identity, enforce_interval, dhash_threshold)
            == Decision::Accept,
        state_after(empty_state(), now, dhash, identity, enforce_interval, dhash_threshold)
            == recorded(now, dhash, identity),
{
}

/// A capture of the same source that follows an accepted one before the
/// enforced interval has passed, and whose fingerprint is closer to the
/// accepted one than the threshold, is suppressed, and the state stays as it
/// was. In particular an unchanged frame is suppressed, provided the
/// threshold is positive.
pub proof fn law_repetition_suppressed(
    last: i64,
    last_dhash: u64,
    identity: Option<Seq<char>>,
    now: i64,
    dhash: u64,
    enforce_interval: u64,
    dhash_threshold: u32,
)
    requires
        last <= now,
        now - last < enforce_interval,
        distance(dhash, last_dhash) < dhash_threshold,
    ensures
        decide(
            recorded(last, last_dhash, identity),
            now,
            dhash,
            identity,
            enforce_interval,
            dhash_threshold,
        ) == Decision::Suppress,
        state_after(
            recorded(last, last_dhash, identity),
            now,
            dhash,
            identity,
            enforce_interval,
            dhash_threshold,
        ) == recorded(last, last_dhash, identity),
        dhash_threshold > 0 ==> decide(
            recorded(last, last_dhash, identity),
            now,
            last_dhash,
            identity,
            enforce_interval,
            dhash_threshold,
        ) == Decision::Suppress,
{
    crate::capture::utils::law_distance_to_itself(last_dhash);
}

/// Once the enforced interval has passed, a capture is accepted even if the
/// frame has not changed at all.
pub proof fn law_enforced_interval_accepts(
    last: i64,
    last_dhash: u64,
    identity: Option<Seq<char>>,
    now: i64,
    dhash: u64,
    enforce_interval: u64,
    dhash_threshold: u32,
)
    requires
        last <= now,
        now - last >= enforce_interval,
    ensures
        decide(
            recorded(last, last_dhash, identity),
            now,
            dhash,
            identity,
            enforce_interval,
            dhash_threshold,
        ) == Decision::Accept,
        state_after(
            recorded(last, last_dhash, identity),
            now,
            dhash,
            identity,
            enforce_interval,
            dhash_threshold,
        ) == recorded(now, dhash, identity),
{
}

/// A capture whose fingerprint is at least the threshold away from the last
/// accepted one is accepted at once, whatever time has passed.
pub proof fn law_changed_frame_accepted(
    last: i64,
    last_dhash: u64,
    last_identity: Option<Seq<char>>,
    now: i64,
    dhash: u64,
    identity: Option<Seq<char>>,
    enforce_interval: u64,
    dhash_threshold: u32,
)
    requires
        distance(dhash, last_dhash) >= dhash_threshold,
    ensures
        decide(
            recorded(last, last_dhash, last_identity),
            now,
            dhash,
            identity,
            enforce_interval,
            dhash_threshold,
        ) != Decision::Suppress,
        state_after(
            recorded(last, last_dhash, last_identity),
            now,
            dhash,
            identity,
            enforce_interval,
            dhash_threshold,
        ) == recorded(now, dhash, identity),
{
}

/// A capture of another window than the last accepted one is accepted,
/// even at the same millisecond and with the same fingerprint.
pub proof fn law_focus_switch_accepted(
    last: i64,
    last_dhash: u64,
    last_identity: Option<Seq<char>>,
    now: i64,
    dhash: u64,
    identity: Option<Seq<char>>,
    enforce_interval: u64,
    dhash_threshold: u32,
)
    requires
        identity != last_identity,
    ensures
        decide(
            recorded(last, last_dhash, last_identity),
            now,
            dhash,
            identity,
            enforce_interval,
            dhash_threshold,
        ) != Decision::Suppress,
        state_after(
            recorded(last, last_dhash, last_identity),
            now,
            dhash,
            identity,
            enforce_interval,
            dhash_threshold,
        ) == recorded(now, dhash, identity),
{
}

/// A capture dated before the last accepted one is accepted as a clock
/// regression, and the state is reset to it.
pub proof fn law_clock_regression_resets(
    last: i64,
    last_dhash: u64,
    last_identity: Option<Seq<char>>,
    now: i64,
    dhash: u64,
    identity: Option<Seq<char>>,
    enforce_interval: u64,
    dhash_threshold: u32,
)
    requires
        now < last,
    ensures
        decide(
            recorded(last, last_dhash, last_identity),
            now,
            dhash,
            identity,
            enforce_interval,
            dhash_threshold,
        ) == Decision::AcceptClockRegression,
        state_after(
            recorded(last, last_dhash, last_identity),
            now,
            dhash,
            identity,
            enforce_interval,
            dhash_threshold,
        ) == recorded(now, dhash, identity),
{
}

} // verus!
