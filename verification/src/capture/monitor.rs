//! A display as a capture source: its id, its geometry and its captures.
use crate::capture::dedup::{decide, empty_state, state_after, DedupState, DedupStateView};
use crate::capture::frame::Frame;
use crate::capture::utils::{dHash, fingerprint};
use crate::event::{
    capture_outcome, outcome_of, CaptureError, CaptureOutcome, CaptureResultView,
};
use crate::text::{
    chars_of, decimal, is_digit, lemma_decimal_reads_back, parse_signed, parse_unsigned,
    push_decimal, push_signed_decimal, read_decimal, signed_decimal,
};
use vstd::prelude::*;
use vstd::string::*;

verus! {

/// What a display id encodes: `name_width_height_x_y`.
pub struct MonitorGeometry {
    pub name: Seq<char>,
    pub width: u32,
    pub height: u32,
    pub x: i32,
    pub y: i32,
}

/// What the capture facility reports of a live display.
#[derive(Debug)]
pub struct DeviceInfo {
    pub name: String,
    pub width: u32,
    pub height: u32,
}

/// Index of the last underscore of `s` before `end`, or `-1` if there is
/// none.
pub open spec fn last_underscore(s: Seq<char>, end: int) -> int
    decreases end,
{
    if end <= 0 {
        -1
    } else if s[end - 1] == '_' {
        end - 1
    } else {
        last_underscore(s, end - 1)
    }
}

/// The geometry that a display id encodes. The last four underscores
/// separate the fields; the name before them is not empty and may itself
/// hold underscores; width and height are unsigned decimals, x and y signed
/// ones.
pub open spec fn parsed_id(s: Seq<char>) -> Option<MonitorGeometry> {
    let cut4 = last_underscore(s, s.len() as int);
    let cut3 = last_underscore(s, cut4);
    let cut2 = last_underscore(s, cut3);
    let cut1 = last_underscore(s, cut2);
    if cut1 <= 0 {
        None
    } else {
        match (
            parse_unsigned(s.subrange(cut1 + 1, cut2)),
            parse_unsigned(s.subrange(cut2 + 1, cut3)),
            parse_signed(s.subrange(cut3 + 1, cut4)),
            parse_signed(s.subrange(cut4 + 1, s.len() as int)),
        ) {
            (Some(width), Some(height), Some(x), Some(y)) => Some(
                MonitorGeometry { name: s.take(cut1), width, height, x, y },
            ),
            _ => None,
        }
    }
}

/// Whether a live display is the one that `geometry` describes: same name,
/// same width, same height.
pub open spec fn matches_device(
    geometry: MonitorGeometry,
    name: Seq<char>,
    width: u32,
    height: u32,
) -> bool {
    geometry.name == name && geometry.width == width && geometry.height == height
}

/// The last underscore is an underscore, lies before `end`, and no
/// underscore follows it before `end`.
pub proof fn lemma_last_underscore(s: Seq<char>, end: int)
    requires
        end <= s.len(),
    ensures
        -1 <= last_underscore(s, end),
        last_underscore(s, end) < end || (end <= 0 && last_underscore(s, end) == -1),
        last_underscore(s, end) >= 0 ==> s[last_underscore(s, end)] == '_',
        forall|j: int| last_underscore(s, end) < j < end && 0 <= j ==> s[j] != '_',
    decreases end,
{
    if end > 0 && s[end - 1] != '_' {
        lemma_last_underscore(s, end - 1);
    }
}

fn find_last_underscore(chars: &Vec<char>, end: usize) -> (found: Option<usize>)
    requires
        end <= chars@.len(),
    ensures
        match found {
            Some(i) => i < end && i == last_underscore(chars@, end as int),
            None => last_underscore(chars@, end as int) == -1,
        },
{
    let mut i: usize = end;
    while i > 0
        invariant
            i <= end <= chars@.len(),
            last_underscore(chars@, end as int) == last_underscore(chars@, i as int),
        decreases i,
    {
        if chars[i - 1] == '_' {
            return Some(i - 1);
        }
        i = i - 1;
    }
    None
}

fn read_unsigned(chars: &Vec<char>, start: usize, end: usize) -> (value: Option<u32>)
    requires
        start <= end <= chars@.len(),
    ensures
        value == parse_unsigned(chars@.subrange(start as int, end as int)),
{
    match read_decimal(chars, start, end, 0xffff_ffff) {
        Some(v) => Some(v as u32),
        None => None,
    }
}

fn read_signed(chars: &Vec<char>, start: usize, end: usize) -> (value: Option<i32>)
    requires
        start <= end <= chars@.len(),
    ensures
        value == parse_signed(chars@.subrange(start as int, end as int)),
{
    let ghost field = chars@.subrange(start as int, end as int);
    if start < end && chars[start] == '-' {
        assert(field[0] == '-');
        assert(field.drop_first() =~= chars@.subrange(start + 1, end as int));
        match read_decimal(chars, start + 1, end, 0x8000_0000) {
            Some(v) => Some((0 - (v as i64)) as i32),
            None => None,
        }
    } else {
        assert(field.len() > 0 ==> field[0] == chars@[start as int]);
        match read_decimal(chars, start, end, 0x7fff_ffff) {
            Some(v) => Some(v as i32),
            None => None,
        }
    }
}

/// A display bound to one id for its whole life, with the record of its
/// last accepted capture.
#[derive(Debug)]
pub struct SafeMonitor {
    id: String,
    state: DedupState,
}

/// Mathematical content of a [`SafeMonitor`].
pub struct SafeMonitorView {
    pub id: Seq<char>,
    pub state: DedupStateView,
}

impl View for SafeMonitor {
    type V = SafeMonitorView;

    closed spec fn view(&self) -> SafeMonitorView {
        SafeMonitorView { id: self.id@, state: self.state@ }
    }
}

impl SafeMonitor {
    /// Binds a display id to the live device found at its position. Fails
    /// with `InvalidSourceId` when the id does not parse, and with
    /// `GeometryMismatch` when the device has another name, width or height
    /// than the id says.
    pub fn new(monitor_id: String, device: &DeviceInfo) -> (monitor: Result<Self, CaptureError>)
        ensures
            match parsed_id(monitor_id@) {
                None => monitor == Err::<Self, CaptureError>(CaptureError::InvalidSourceId),
                Some(geometry) => if matches_device(
                    geometry,
                    device.name@,
                    device.width,
                    device.height,
                ) {
                    monitor matches Ok(m) && m@ == (SafeMonitorView {
                        id: monitor_id@,
                        state: empty_state(),
                    })
                } else {
                    monitor == Err::<Self, CaptureError>(CaptureError::GeometryMismatch)
                },
            },
    {
        match Self::parse_id(monitor_id.as_str()) {
            Err(e) => Err(e),
            Ok((name, width, height, _x, _y)) => {
                if name != device.name || width != device.width || height != device.height {
                    Err(CaptureError::GeometryMismatch)
                } else {
                    Ok(SafeMonitor { id: monitor_id, state: DedupState::new() })
                }
            },
        }
    }

    /// Reads a display id of the form `name_width_height_x_y`.
    pub fn parse_id(monitor_id: &str) -> (parsed: Result<(String, u32, u32, i32, i32), CaptureError>)
        ensures
            match parsed_id(monitor_id@) {
                Some(geometry) => parsed matches Ok(fields) && fields.0@ == geometry.name
                    && fields.1 == geometry.width && fields.2 == geometry.height && fields.3
                    == geometry.x && fields.4 == geometry.y,
                None => parsed == Err::<(String, u32, u32, i32, i32), CaptureError>(
                    CaptureError::InvalidSourceId,
                ),
            },
    {
        let chars = chars_of(monitor_id);
        let n = chars.len();
        let Some(cut4) = find_last_underscore(&chars, n) else {
            return Err(CaptureError::InvalidSourceId);
        };
        let Some(cut3) = find_last_underscore(&chars, cut4) else {
            return Err(CaptureError::InvalidSourceId);
        };
        let Some(cut2) = find_last_underscore(&chars, cut3) else {
            return Err(CaptureError::InvalidSourceId);
        };
        let Some(cut1) = find_last_underscore(&chars, cut2) else {
            return Err(CaptureError::InvalidSourceId);
        };
        proof {
            lemma_last_underscore(chars@, n as int);
            lemma_last_underscore(chars@, cut4 as int);
            lemma_last_underscore(chars@, cut3 as int);
            lemma_last_underscore(chars@, cut2 as int);
        }
        if cut1 == 0 {
            return Err(CaptureError::InvalidSourceId);
        }
        let Some(width) = read_unsigned(&chars, cut1 + 1, cut2) else {
            return Err(CaptureError::InvalidSourceId);
        };
        let Some(height) = read_unsigned(&chars, cut2 + 1, cut3) else {
            return Err(CaptureError::InvalidSourceId);
        };
        let Some(x) = read_signed(&chars, cut3 + 1, cut4) else {
            return Err(CaptureError::InvalidSourceId);
        };
        let Some(y) = read_signed(&chars, cut4 + 1, n) else {
            return Err(CaptureError::InvalidSourceId);
        };
        let name = String::from_str(monitor_id.substring_char(0, cut1));
        assert(chars@.subrange(0, cut1 as int) =~= chars@.take(cut1 as int));
        Ok((name, width, height, x, y))
    }

    /// Takes a frame captured from this display at `now` (milliseconds since
    /// the Unix epoch) and decides whether to forward it.
    pub fn capture_once(
        &mut self,
        now: i64,
        image: Frame,
        enforce_interval: u64,
        dhash_threshold: u32,
        dhash_resolution: u32,
    ) -> (outcome: CaptureOutcome)
        ensures
            final(self)@.id == old(self)@.id,
            final(self)@.state == state_after(
                old(self)@.state,
                now,
                fingerprint(image@, dhash_resolution),
                None,
                enforce_interval,
                dhash_threshold,
            ),
            capture_outcome(
                outcome,
                decide(
                    old(self)@.state,
                    now,
                    fingerprint(image@, dhash_resolution),
                    None,
                    enforce_interval,
                    dhash_threshold,
                ),
                CaptureResultView { monitor_id: old(self)@.id, image: image@, timestamp: now },
            ),
    {
        let dhash = dHash(&image, dhash_resolution);
        let decision = self.state.observe(now, dhash, None, enforce_interval, dhash_threshold);
        outcome_of(decision, self.id.clone(), image, now)
    }

    /// Writes the id of a display with the given name and geometry.
    pub fn format_id(name: &str, width: u32, height: u32, x: i32, y: i32) -> (id: String)
        ensures
            id@ == formatted_id(name@, width, height, x, y),
    {
        proof {
            reveal_strlit("_");
        }
        assert("_"@ =~= seq!['_']);
        let mut id = String::from_str(name);
        id.append("_");
        push_decimal(&mut id, width as u64);
        id.append("_");
        push_decimal(&mut id, height as u64);
        id.append("_");
        push_signed_decimal(&mut id, x as i64);
        id.append("_");
        push_signed_decimal(&mut id, y as i64);
        id
    }

    /// The id that this display was bound to.
    pub fn id(&self) -> (id: &str)
        ensures
            id@ == self@.id,
    {
        self.id.as_str()
    }
}

/// The id of a display with the given name and geometry.
pub open spec fn formatted_id(name: Seq<char>, width: u32, height: u32, x: i32, y: i32) -> Seq<
    char,
> {
    name + seq!['_'] + decimal(width as nat) + seq!['_'] + decimal(height as nat) + seq!['_']
        + signed_decimal(x as int) + seq!['_'] + signed_decimal(y as int)
}

/// An underscore that no underscore follows before `end` is the last one
/// before `end`.
pub proof fn lemma_last_underscore_at(s: Seq<char>, p: int, end: int)
    requires
        0 <= p < end <= s.len(),
        s[p] == '_',
        forall|j: int| p < j < end ==> s[j] != '_',
    ensures
        last_underscore(s, end) == p,
    decreases end - p,
{
    if end - 1 > p {
        lemma_last_underscore_at(s, p, end - 1);
    }
}

proof fn lemma_signed_decimal(n: int)
    requires
        i32::MIN <= n <= i32::MAX,
    ensures
        signed_decimal(n).len() > 0,
        forall|i: int| 0 <= i < signed_decimal(n).len() ==> signed_decimal(n)[i] != '_',
        parse_signed(signed_decimal(n)) == Some(n as i32),
{
    let s = signed_decimal(n);
    if n < 0 {
        let m = decimal((-n) as nat);
        lemma_decimal_reads_back((-n) as nat);
        assert(s.drop_first() =~= m);
        assert forall|i: int| 0 <= i < s.len() implies s[i] != '_' by {
            if i > 0 {
                assert(s[i] == m[i - 1]);
                assert(is_digit(m[i - 1]));
            }
        }
    } else {
        lemma_decimal_reads_back(n as nat);
        assert(is_digit(s[0]));
        assert forall|i: int| 0 <= i < s.len() implies s[i] != '_' by {
            assert(is_digit(s[i]));
        }
    }
}

proof fn lemma_unsigned_decimal(n: u32)
    ensures
        decimal(n as nat).len() > 0,
        forall|i: int| 0 <= i < decimal(n as nat).len() ==> decimal(n as nat)[i] != '_',
        parse_unsigned(decimal(n as nat)) == Some(n),
{
    let s = decimal(n as nat);
    lemma_decimal_reads_back(n as nat);
    assert forall|i: int| 0 <= i < s.len() implies s[i] != '_' by {
        assert(is_digit(s[i]));
    }
}

/// An id written from a non-empty name and a geometry reads back as that
/// name and that geometry.
pub proof fn law_id_round_trip(name: Seq<char>, width: u32, height: u32, x: i32, y: i32)
    requires
        name.len() > 0,
    ensures
        parsed_id(formatted_id(name, width, height, x, y)) == Some(
            MonitorGeometry { name, width, height, x, y },
        ),
{
    let w = decimal(width as nat);
    let h = decimal(height as nat);
    let xs = signed_decimal(x as int);
    let ys = signed_decimal(y as int);
    let s = formatted_id(name, width, height, x, y);
    lemma_unsigned_decimal(width);
    lemma_unsigned_decimal(height);
    lemma_signed_decimal(x as int);
    lemma_signed_decimal(y as int);
    let cut1 = name.len() as int;
    let cut2 = cut1 + 1 + w.len();
    let cut3 = cut2 + 1 + h.len();
    let cut4 = cut3 + 1 + xs.len();
    assert(s.len() == cut4 + 1 + ys.len());
    assert(s[cut1] == '_' && s[cut2] == '_' && s[cut3] == '_' && s[cut4] == '_');
    assert forall|j: int| cut4 < j < s.len() implies s[j] != '_' by {
        assert(s[j] == ys[j - cut4 - 1]);
    }
    assert forall|j: int| cut3 < j < cut4 implies s[j] != '_' by {
        assert(s[j] == xs[j - cut3 - 1]);
    }
    assert forall|j: int| cut2 < j < cut3 implies s[j] != '_' by {
        assert(s[j] == h[j - cut2 - 1]);
    }
    assert forall|j: int| cut1 < j < cut2 implies s[j] != '_' by {
        assert(s[j] == w[j - cut1 - 1]);
    }
    lemma_last_underscore_at(s, cut4, s.len() as int);
    lemma_last_underscore_at(s, cut3, cut4);
    lemma_last_underscore_at(s, cut2, cut3);
    lemma_last_underscore_at(s, cut1, cut2);
    assert(s.subrange(cut1 + 1, cut2) =~= w);
    assert(s.subrange(cut2 + 1, cut3) =~= h);
    assert(s.subrange(cut3 + 1, cut4) =~= xs);
    assert(s.subrange(cut4 + 1, s.len() as int) =~= ys);
    assert(s.take(cut1) =~= name);
}

} // verus!
