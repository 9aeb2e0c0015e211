//! The focused window as a capture source.
use crate::capture::dedup::{decide, empty_state, state_after, DedupState, DedupStateView, Decision};
use crate::capture::frame::Frame;
use crate::capture::monitor::lemma_last_underscore_at;
use crate::capture::utils::{dHash, fingerprint};
use crate::event::{
    capture_outcome, outcome_of, CaptureError, CaptureOutcome, CaptureResultView,
};
use crate::text::{decimal, is_digit, lemma_decimal_reads_back, push_decimal};
use vstd::prelude::*;
use vstd::string::*;

verus! {

/// What the capture facility reports of a window.
#[derive(Debug)]
pub struct WindowInfo {
    pub id: u32,
    pub title: String,
    pub app_name: String,
}

/// Mathematical content of a [`WindowInfo`].
pub struct WindowInfoView {
    pub id: u32,
    pub title: Seq<char>,
    pub app_name: Seq<char>,
}

impl View for WindowInfo {
    type V = WindowInfoView;

    open spec fn view(&self) -> WindowInfoView {
        WindowInfoView { id: self.id, title: self.title@, app_name: self.app_name@ }
    }
}

impl Clone for WindowInfo {
    fn clone(&self) -> (copy: Self)
        ensures
            copy@ == self@,
    {
        WindowInfo { id: self.id, title: self.title.clone(), app_name: self.app_name.clone() }
    }
}

/// The source id of a window: `window_`, the name of its application, an
/// underscore, and its window id in decimal.
pub open spec fn window_source_id(app_name: Seq<char>, id: u32) -> Seq<char> {
    seq!['w', 'i', 'n', 'd', 'o', 'w', '_'] + app_name + seq!['_'] + decimal(id as nat)
}

impl WindowInfo {
    /// The source id under which captures of this window are emitted.
    pub fn capture_id(&self) -> (id: String)
        ensures
            id@ == window_source_id(self.app_name@, self.id),
    {
        proof {
            reveal_strlit("window_");
            reveal_strlit("_");
        }
        let mut id = String::from_str("window_");
        assert(id@ =~= seq!['w', 'i', 'n', 'd', 'o', 'w', '_']);
        id.append(self.app_name.as_str());
        id.append("_");
        assert("_"@ =~= seq!['_']);
        push_decimal(&mut id, self.id as u64);
        id
    }
}

/// The view of an optional window.
pub open spec fn window_view(window: Option<WindowInfo>) -> Option<WindowInfoView> {
    match window {
        Some(w) => Some(w@),
        None => None,
    }
}

/// The window that currently holds the focus, whichever it is, with the
/// record of the last accepted capture.
#[derive(Debug)]
pub struct SafeWindow {
    state: DedupState,
    last_window_info: Option<WindowInfo>,
}

/// Mathematical content of a [`SafeWindow`].
pub struct SafeWindowView {
    pub state: DedupStateView,
    pub last_window_info: Option<WindowInfoView>,
}

impl View for SafeWindow {
    type V = SafeWindowView;

    closed spec fn view(&self) -> SafeWindowView {
        SafeWindowView {
            state: self.state@,
            last_window_info: window_view(self.last_window_info),
        }
    }
}

impl SafeWindow {
    /// A window source that has not accepted a capture yet.
    pub fn new() -> (window: Self)
        ensures
            window@ == (SafeWindowView { state: empty_state(), last_window_info: None }),
    {
        Self { state: DedupState::new(), last_window_info: None }
    }

    /// Takes a frame captured at `now` (milliseconds since the Unix epoch)
    /// from the focused window `window` and decides whether to forward it. A
    /// capture of another window than the last accepted one is always
    /// forwarded. `_enable_ocr` is reserved and has no effect.
    pub fn capture_once(
        &mut self,
        now: i64,
        window: WindowInfo,
        image: Frame,
        enforce_interval: u64,
        dhash_threshold: u32,
        dhash_resolution: u32,
        _enable_ocr: bool,
    ) -> (outcome: CaptureOutcome)
        ensures
            final(self)@.state == state_after(
                old(self)@.state,
                now,
                fingerprint(image@, dhash_resolution),
                Some(window_source_id(window.app_name@, window.id)),
                enforce_interval,
                dhash_threshold,
            ),
            final(self)@.last_window_info == if decide(
                old(self)@.state,
                now,
                fingerprint(image@, dhash_resolution),
                Some(window_source_id(window.app_name@, window.id)),
                enforce_interval,
                dhash_threshold,
            ) == Decision::Suppress {
                old(self)@.last_window_info
            } else {
                Some(window@)
            },
            capture_outcome(
                outcome,
                decide(
                    old(self)@.state,
                    now,
                    fingerprint(image@, dhash_resolution),
                    Some(window_source_id(window.app_name@, window.id)),
                    enforce_interval,
                    dhash_threshold,
                ),
                CaptureResultView {
                    monitor_id: window_source_id(window.app_name@, window.id),
                    image: image@,
                    timestamp: now,
                },
            ),
    {
        let dhash = dHash(&image, dhash_resolution);
        let capture_id = window.capture_id();
        let decision = self.state.observe(
            now,
            dhash,
            Some(capture_id.clone()),
            enforce_interval,
            dhash_threshold,
        );
        match decision {
            Decision::Suppress => {},
            _ => {
                self.last_window_info = Some(window);
            },
        }
        outcome_of(decision, capture_id, image, now)
    }

    /// Picks the focused window among the windows on screen: the first one
    /// that reports to hold the focus. `focused[i]` is what window `i`
    /// reports. Fails with `NoFocusedSource` when none does.
    pub fn get_focused_window(focused: &Vec<bool>) -> (found: Result<usize, CaptureError>)
        ensures
            match found {
                Ok(i) => i < focused@.len() && focused@[i as int] && forall|k: int|
                    0 <= k < i ==> !focused@[k],
                Err(e) => e == CaptureError::NoFocusedSource && forall|k: int|
                    0 <= k < focused@.len() ==> !focused@[k],
            },
    {
        let mut i: usize = 0;
        while i < focused.len()
            invariant
                i <= focused@.len(),
                forall|k: int| 0 <= k < i ==> !focused@[k],
            decreases focused@.len() - i,
        {
            if focused[i] {
                return Ok(i);
            }
            i = i + 1;
        }
        Err(CaptureError::NoFocusedSource)
    }

    /// Application name and title of the window of the last accepted
    /// capture.
    pub fn last_window_info(&self) -> (info: Option<(String, String)>)
        ensures
            match self@.last_window_info {
                Some(w) => info matches Some(pair) && pair.0@ == w.app_name && pair.1@ == w.title,
                None => info is None,
            },
    {
        match &self.last_window_info {
            Some(w) => Some((w.app_name.clone(), w.title.clone())),
            None => None,
        }
    }

    /// Time of the last accepted capture.
    pub fn last_capture_time(&self) -> (time: Option<i64>)
        ensures
            time == self@.state.last_capture_time,
    {
        self.state.last_capture_time
    }

    /// Fingerprint of the last accepted capture.
    pub fn last_capture_dhash(&self) -> (dhash: Option<u64>)
        ensures
            dhash == self@.state.last_capture_dhash,
    {
        self.state.last_capture_dhash
    }
}

impl Default for SafeWindow {
    fn default() -> (window: Self)
        ensures
            window@ == (SafeWindowView { state: empty_state(), last_window_info: None }),
    {
        Self::new()
    }
}

/// Two windows have the same source id exactly when they have the same
/// application name and the same window id.
pub proof fn law_window_identity(app1: Seq<char>, id1: u32, app2: Seq<char>, id2: u32)
    ensures
        window_source_id(app1, id1) == window_source_id(app2, id2) <==> app1 == app2 && id1 == id2,
{
    let s1 = window_source_id(app1, id1);
    let s2 = window_source_id(app2, id2);
    if s1 == s2 {
        let d1 = decimal(id1 as nat);
        let d2 = decimal(id2 as nat);
        lemma_decimal_reads_back(id1 as nat);
        lemma_decimal_reads_back(id2 as nat);
        let cut1 = 7 + app1.len() as int;
        let cut2 = 7 + app2.len() as int;
        assert(s1[cut1] == '_' && s2[cut2] == '_');
        assert forall|j: int| cut1 < j < s1.len() implies s1[j] != '_' by {
            assert(s1[j] == d1[j - cut1 - 1]);
            assert(is_digit(d1[j - cut1 - 1]));
        }
        assert forall|j: int| cut2 < j < s2.len() implies s2[j] != '_' by {
            assert(s2[j] == d2[j - cut2 - 1]);
            assert(is_digit(d2[j - cut2 - 1]));
        }
        lemma_last_underscore_at(s1, cut1, s1.len() as int);
        lemma_last_underscore_at(s2, cut2, s2.len() as int);
        assert(cut1 == cut2);
        assert(s1.subrange(7, cut1) =~= app1);
        assert(s2.subrange(7, cut2) =~= app2);
        assert(s1.skip(cut1 + 1) =~= d1);
        assert(s2.skip(cut2 + 1) =~= d2);
    }
}

} // verus!
