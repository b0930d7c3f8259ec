//! The surrounding-text synchronizer.
//!
//! When the compositor asks for context, the window supplies its full text
//! with cursor and anchor byte positions. The protocol caps the payload, so
//! an over-long text is truncated symmetrically around the cursor, never
//! cutting inside a multi-byte character, and cursor and anchor are
//! recomputed relative to the truncated substring. The batch of requests
//! (set-surrounding-text, set-content-type, set-cursor-rectangle when
//! available) is terminated by a single commit, per the protocol's
//! atomic-update rule.

use vstd::prelude::*;

use crate::boundary::is_char_boundary;
use crate::boundary::spec_is_char_boundary;
use crate::content_type::content_type_by_purpose;
use crate::content_type::spec_content_type;
use crate::dispatch::Request;
use crate::dispatch::RequestV;
use crate::state::ChangeCause;
use crate::state::ImePurpose;
use crate::state::StateV;
use crate::state::Surrounding;
use crate::state::SurroundingV;
use crate::state::TextInputDataInner;

verus! {

/// The smallest character boundary of `s` at or after `i` (text length at
/// the latest).
pub open spec fn seek_fwd(s: Seq<u8>, i: int) -> int
    decreases s.len() - i,
{
    if i < 0 || i >= s.len() || spec_is_char_boundary(s, i) {
        i
    } else {
        seek_fwd(s, i + 1)
    }
}

/// The largest character boundary of `s` at or before `i` (zero at the
/// earliest).
pub open spec fn seek_back(s: Seq<u8>, i: int) -> int
    decreases i,
{
    if i <= 0 {
        0
    } else if spec_is_char_boundary(s, i) {
        i
    } else {
        seek_back(s, i - 1)
    }
}

/// `seek_fwd` stays within `[i, len]` and lands on a boundary.
pub proof fn lemma_seek_fwd_bounds(s: Seq<u8>, i: int)
    requires
        0 <= i <= s.len(),
    ensures
        i <= seek_fwd(s, i) <= s.len(),
        spec_is_char_boundary(s, seek_fwd(s, i)),
    decreases s.len() - i,
{
    if !(i >= s.len() || spec_is_char_boundary(s, i)) {
        lemma_seek_fwd_bounds(s, i + 1);
    }
}

/// `seek_fwd` never overshoots a boundary at or after its start.
pub proof fn lemma_seek_fwd_min(s: Seq<u8>, i: int, c: int)
    requires
        0 <= i <= c,
        spec_is_char_boundary(s, c),
    ensures
        seek_fwd(s, i) <= c,
    decreases c - i,
{
    if !(i >= s.len() || spec_is_char_boundary(s, i)) {
        lemma_seek_fwd_min(s, i + 1, c);
    }
}

/// `seek_back` stays within `[0, i]` and lands on a boundary.
pub proof fn lemma_seek_back_bounds(s: Seq<u8>, i: int)
    requires
        0 <= i <= s.len(),
    ensures
        0 <= seek_back(s, i) <= i,
        spec_is_char_boundary(s, seek_back(s, i)),
    decreases i,
{
    if !(i <= 0 || spec_is_char_boundary(s, i)) {
        lemma_seek_back_bounds(s, i - 1);
    }
}

/// `seek_back` never undershoots a boundary at or before its start.
pub proof fn lemma_seek_back_min(s: Seq<u8>, c: int, i: int)
    requires
        0 <= c <= i <= s.len(),
        spec_is_char_boundary(s, c),
    ensures
        c <= seek_back(s, i),
    decreases i,
{
    if !(i <= 0 || spec_is_char_boundary(s, i)) {
        lemma_seek_back_min(s, c, i - 1);
    }
}

/// A boundary of the full text that lies within a boundary-delimited window
/// is a boundary of the windowed substring.
pub proof fn lemma_subrange_boundary(s: Seq<u8>, start: int, end: int, i: int)
    requires
        0 <= start <= end <= s.len(),
        start <= i <= end,
        spec_is_char_boundary(s, i),
    ensures
        spec_is_char_boundary(s.subrange(start, end), i - start),
{
}

/// `v` forced into `[lo, hi]`.
pub open spec fn clamp_to(v: int, lo: int, hi: int) -> int {
    if v < lo {
        lo
    } else if v > hi {
        hi
    } else {
        v
    }
}

/// Where the truncation window starts: the first boundary at or after half
/// the budget before the cursor.
pub open spec fn trunc_start(s: Seq<u8>, cursor: int, max: int) -> int {
    seek_fwd(
        s,
        if cursor >= max / 2 {
            cursor - max / 2
        } else {
            0
        },
    )
}

/// Where the truncation window ends: the last boundary at or before the
/// start plus the whole budget (text end at the latest).
pub open spec fn trunc_end(s: Seq<u8>, cursor: int, max: int) -> int {
    let start = trunc_start(s, cursor, max);
    seek_back(
        s,
        if start + max <= s.len() {
            start + max
        } else {
            s.len() as int
        },
    )
}

/// The surrounding text sent for budget `max`: the text itself when it fits,
/// else the boundary-delimited window around the cursor, with cursor and
/// anchor rebased to it (the anchor clamped into the window first).
pub open spec fn spec_truncate(s: Seq<u8>, cursor: int, anchor: int, max: int) -> (Seq<u8>, int, int) {
    if s.len() <= max {
        (s, cursor, anchor)
    } else {
        let start = trunc_start(s, cursor, max);
        let end = trunc_end(s, cursor, max);
        (s.subrange(start, end), cursor - start, clamp_to(anchor, start, end) - start)
    }
}

/// Truncation always respects the payload budget and the text's characters:
/// for any boundary-valid context and any budget, the sent text fits the
/// budget and the rebased cursor and anchor are character boundaries of it.
pub proof fn lemma_truncate_window(s: Seq<u8>, cursor: int, anchor: int, max: int)
    requires
        0 <= max,
        spec_is_char_boundary(s, cursor),
        spec_is_char_boundary(s, anchor),
    ensures
        ({
            let (t, c, a) = spec_truncate(s, cursor, anchor, max);
            &&& t.len() <= max
            &&& 0 <= c <= t.len()
            &&& 0 <= a <= t.len()
            &&& spec_is_char_boundary(t, c)
            &&& spec_is_char_boundary(t, a)
        }),
{
    if s.len() > max {
        let lo = if cursor >= max / 2 {
            cursor - max / 2
        } else {
            0
        };
        let start = trunc_start(s, cursor, max);
        lemma_seek_fwd_bounds(s, lo);
        lemma_seek_fwd_min(s, lo, cursor);
        let hi = if start + max <= s.len() {
            start + max
        } else {
            s.len() as int
        };
        let end = trunc_end(s, cursor, max);
        lemma_seek_back_bounds(s, hi);
        lemma_seek_back_min(s, cursor, hi);
        lemma_subrange_boundary(s, start, end, cursor);
        lemma_subrange_boundary(s, start, end, clamp_to(anchor, start, end));
    }
}

/// The truncated context as the record kept in the input state and sent on
/// the wire, whose positions are the protocol's 32-bit integers.
pub open spec fn truncated_surrounding(s: Seq<u8>, cursor: int, anchor: int, max: int) -> SurroundingV {
    let (t, c, a) = spec_truncate(s, cursor, anchor, max);
    SurroundingV { text: t, cursor_idx: c as i32, anchor_idx: a as i32 }
}

/// A fresh copy of a byte vector.
fn copy_bytes(v: &Vec<u8>) -> (r: Vec<u8>)
    ensures
        r@ == v@,
{
    let mut out: Vec<u8> = Vec::new();
    let mut k: usize = 0;
    while k < v.len()
        invariant
            k <= v@.len(),
            out@ == v@.subrange(0, k as int),
        decreases v@.len() - k,
    {
        out.push(v[k]);
        proof {
            assert(v@.subrange(0, k as int + 1) =~= v@.subrange(0, k as int).push(v@[k as int]));
        }
        k = k + 1;
    }
    proof {
        assert(v@.subrange(0, v@.len() as int) =~= v@);
    }
    out
}

/// The first character boundary of `text` at or after `idx`.
fn seek_boundary_fwd(text: &Vec<u8>, idx: usize) -> (r: usize)
    requires
        idx <= text@.len(),
    ensures
        r == seek_fwd(text@, idx as int),
{
    let mut j = idx;
    while j < text.len() && !is_char_boundary(text, j)
        invariant
            idx <= j <= text@.len(),
            seek_fwd(text@, idx as int) == seek_fwd(text@, j as int),
        decreases text@.len() - j,
    {
        j = j + 1;
    }
    j
}

/// The last character boundary of `text` at or before `idx`.
fn seek_boundary_back(text: &Vec<u8>, idx: usize) -> (r: usize)
    requires
        idx <= text@.len(),
    ensures
        r == seek_back(text@, idx as int),
{
    let mut j = idx;
    while j > 0 && !is_char_boundary(text, j)
        invariant
            j <= idx,
            idx <= text@.len(),
            seek_back(text@, idx as int) == seek_back(text@, j as int),
        decreases j,
    {
        j = j - 1;
    }
    j
}

/// Fit a surrounding-text context into `max_len` bytes: keep the text whole
/// when it fits, else cut a window around the cursor as [`spec_truncate`]
/// says — on character boundaries only — and rebase cursor and anchor to it.
pub fn truncate_surrounding(text: &Vec<u8>, cursor: usize, anchor: usize, max_len: usize) -> (r: (
    Vec<u8>,
    usize,
    usize,
))
    requires
        spec_is_char_boundary(text@, cursor as int),
        spec_is_char_boundary(text@, anchor as int),
    ensures
        (r.0@, r.1 as int, r.2 as int) == spec_truncate(
            text@,
            cursor as int,
            anchor as int,
            max_len as int,
        ),
        r.0@.len() <= max_len,
        r.1 <= r.0@.len(),
        r.2 <= r.0@.len(),
        spec_is_char_boundary(r.0@, r.1 as int),
        spec_is_char_boundary(r.0@, r.2 as int),
{
    if text.len() <= max_len {
        let out = copy_bytes(text);
        return (out, cursor, anchor);
    }
    let half = max_len / 2;
    let lo = if cursor >= half {
        cursor - half
    } else {
        0
    };
    let start = seek_boundary_fwd(text, lo);
    proof {
        lemma_seek_fwd_bounds(text@, lo as int);
        lemma_seek_fwd_min(text@, lo as int, cursor as int);
    }
    let hi = if max_len <= text.len() - start {
        start + max_len
    } else {
        text.len()
    };
    let end = seek_boundary_back(text, hi);
    proof {
        lemma_seek_back_bounds(text@, hi as int);
        lemma_seek_back_min(text@, cursor as int, hi as int);
    }
    let mut out: Vec<u8> = Vec::new();
    let mut k = start;
    while k < end
        invariant
            start <= k <= end <= text@.len(),
            out@ == text@.subrange(start as int, k as int),
        decreases end - k,
    {
        out.push(text[k]);
        proof {
            assert(text@.subrange(start as int, k as int + 1) =~= text@.subrange(
                start as int,
                k as int,
            ).push(text@[k as int]));
        }
        k = k + 1;
    }
    let new_cursor = cursor - start;
    let clamped = if anchor < start {
        start
    } else if anchor > end {
        end
    } else {
        anchor
    };
    let new_anchor = clamped - start;
    proof {
        lemma_subrange_boundary(text@, start as int, end as int, cursor as int);
        lemma_subrange_boundary(text@, start as int, end as int, clamped as int);
    }
    (out, new_cursor, new_anchor)
}

/// Store the window-supplied context, truncated to the payload budget, as
/// the context most recently prepared for the compositor.
pub fn retrieve_surrounding(
    state: &mut TextInputDataInner,
    text: Vec<u8>,
    cursor: usize,
    anchor: usize,
    max_len: usize,
)
    requires
        spec_is_char_boundary(text@, cursor as int),
        spec_is_char_boundary(text@, anchor as int),
        max_len <= i32::MAX as usize,
    ensures
        final(state)@ == (StateV {
            surrounding: Some(
                truncated_surrounding(text@, cursor as int, anchor as int, max_len as int),
            ),
            ..old(state)@
        }),
{
    let (t, c, a) = truncate_surrounding(&text, cursor, anchor, max_len);
    let cursor_idx = c as i32;
    let anchor_idx = a as i32;
    state.surrounding = Some(Surrounding { text: t, cursor_idx, anchor_idx });
}

/// The set-surrounding-text request carrying a prepared context.
pub fn notify_surrounding_text(surrounding: &Surrounding) -> (r: Request)
    ensures
        r@ == (RequestV::SetSurroundingText {
            text: surrounding@.text,
            cursor: surrounding@.cursor_idx,
            anchor: surrounding@.anchor_idx,
        }),
{
    let text = copy_bytes(&surrounding.text);
    Request::SetSurroundingText {
        text,
        cursor: surrounding.cursor_idx,
        anchor: surrounding.anchor_idx,
    }
}

/// The set-content-type request for a window's declared purpose.
pub fn notify_content_type(purpose: ImePurpose) -> (r: Request)
    ensures
        r@ == (RequestV::SetContentType {
            hint: spec_content_type(purpose).0,
            purpose: spec_content_type(purpose).1,
        }),
{
    let (hint, content_purpose) = content_type_by_purpose(purpose);
    Request::SetContentType { hint, purpose: content_purpose }
}

/// The set-cursor-rectangle request for a window-relative cursor rectangle.
pub fn notify_cursor_location(x: i32, y: i32, width: i32, height: i32) -> (r: Request)
    ensures
        r@ == (RequestV::SetCursorRectangle { x, y, width, height }),
{
    Request::SetCursorRectangle { x, y, width, height }
}

/// The atomic batch flushed when the surrounding text changed: the truncated
/// context, the content type, the cursor rectangle when one is available,
/// and the single commit that terminates the batch.
pub open spec fn im_change_requests(
    text: Seq<u8>,
    cursor: int,
    anchor: int,
    purpose: ImePurpose,
    cursor_rect: Option<(i32, i32, i32, i32)>,
    max: int,
) -> Seq<RequestV> {
    let s = truncated_surrounding(text, cursor, anchor, max);
    seq![
        RequestV::SetSurroundingText { text: s.text, cursor: s.cursor_idx, anchor: s.anchor_idx },
        RequestV::SetContentType {
            hint: spec_content_type(purpose).0,
            purpose: spec_content_type(purpose).1,
        },
    ] + (match cursor_rect {
        Some((x, y, w, h)) => seq![RequestV::SetCursorRectangle { x, y, width: w, height: h }],
        None => Seq::empty(),
    }) + seq![RequestV::Commit]
}

/// Record why the surrounding text changed and build the atomic update
/// batch for the compositor: store the truncated context, then return
/// set-surrounding-text, set-content-type, set-cursor-rectangle (when a
/// rectangle is available) and the terminating commit, in that order.
pub fn notify_im_change(
    state: &mut TextInputDataInner,
    cause: ChangeCause,
    text: Vec<u8>,
    cursor: usize,
    anchor: usize,
    purpose: ImePurpose,
    cursor_rect: Option<(i32, i32, i32, i32)>,
    max_len: usize,
) -> (r: Vec<Request>)
    requires
        spec_is_char_boundary(text@, cursor as int),
        spec_is_char_boundary(text@, anchor as int),
        max_len <= i32::MAX as usize,
    ensures
        final(state)@ == (StateV {
            surrounding: Some(
                truncated_surrounding(text@, cursor as int, anchor as int, max_len as int),
            ),
            surrounding_change: Some(cause),
            ..old(state)@
        }),
        r@.map_values(|q: Request| q@) == im_change_requests(
            text@,
            cursor as int,
            anchor as int,
            purpose,
            cursor_rect,
            max_len as int,
        ),
{
    state.surrounding_change = Some(cause);
    retrieve_surrounding(state, text, cursor, anchor, max_len);
    let mut requests: Vec<Request> = Vec::new();
    match &state.surrounding {
        Some(s) => {
            requests.push(notify_surrounding_text(s));
        },
        None => {},
    }
    requests.push(notify_content_type(purpose));
    match cursor_rect {
        Some((x, y, width, height)) => {
            requests.push(notify_cursor_location(x, y, width, height));
        },
        None => {},
    }
    requests.push(Request::Commit);
    proof {
        assert(requests@.map_values(|q: Request| q@) =~= im_change_requests(
            text@,
            cursor as int,
            anchor as int,
            purpose,
            cursor_rect,
            max_len as int,
        ));
    }
    requests
}

} // verus!
