//! The event dispatcher / state machine.
//!
//! Protocol events are double-buffered: enter/leave, preedit, commit and
//! delete-surrounding only stage intent; a transaction boundary ("done")
//! flushes everything staged in one fixed, protocol-mandated order. The
//! dispatcher works on plain values: the caller resolves the window registry
//! and hands in a [`WindowLookup`]; the dispatcher mutates the input state
//! and returns the compositor requests, application notifications and window
//! bridge call to perform, in order.

use vstd::prelude::*;

use crate::boundary::spec_validate_position;
use crate::boundary::validate_position;
use crate::content_type::content_type_by_purpose;
use crate::content_type::spec_content_type;
use crate::state::ContentHint;
use crate::state::ContentPurpose;
use crate::state::ImePurpose;
use crate::state::Preedit;
use crate::state::PreeditV;
use crate::state::StateV;
use crate::state::SurroundingDelete;
use crate::state::TextInputDataInner;

verus! {

/// A protocol event, as plain values. Text arrives as optional UTF-8 bytes;
/// cursor offsets as raw byte counts that may be invalid.
#[derive(Clone, Debug, PartialEq)]
pub enum TextInputEvent {
    Enter { surface: u64 },
    Leave { surface: u64 },
    PreeditString { text: Option<Vec<u8>>, cursor_begin: i32, cursor_end: i32 },
    CommitString { text: Option<Vec<u8>> },
    DeleteSurroundingText { before_length: u32, after_length: u32 },
    Done { serial: u32 },
    /// Any event shape this machine does not recognize; always a no-op,
    /// never an abort.
    Unknown,
}

/// Mathematical view of a [`TextInputEvent`].
pub enum EventV {
    Enter { surface: u64 },
    Leave { surface: u64 },
    PreeditString { text: Option<Seq<u8>>, cursor_begin: i32, cursor_end: i32 },
    CommitString { text: Option<Seq<u8>> },
    DeleteSurroundingText { before_length: u32, after_length: u32 },
    Done { serial: u32 },
    Unknown,
}

impl View for TextInputEvent {
    type V = EventV;

    open spec fn view(&self) -> EventV {
        match *self {
            TextInputEvent::Enter { surface } => EventV::Enter { surface },
            TextInputEvent::Leave { surface } => EventV::Leave { surface },
            TextInputEvent::PreeditString { text, cursor_begin, cursor_end } => {
                EventV::PreeditString {
                    text: match text {
                        Some(t) => Some(t@),
                        None => None,
                    },
                    cursor_begin,
                    cursor_end,
                }
            },
            TextInputEvent::CommitString { text } => {
                EventV::CommitString {
                    text: match text {
                        Some(t) => Some(t@),
                        None => None,
                    },
                }
            },
            TextInputEvent::DeleteSurroundingText { before_length, after_length } => {
                EventV::DeleteSurroundingText { before_length, after_length }
            },
            TextInputEvent::Done { serial } => EventV::Done { serial },
            TextInputEvent::Unknown => EventV::Unknown,
        }
    }
}

/// The result of resolving the event's surface against the window registry,
/// supplied by the caller. The registry is permitted to no longer know the
/// surface: that is `Missing`, and never an error.
#[derive(Clone, Copy, PartialEq, Eq, Structural, Debug)]
pub enum WindowLookup {
    Missing,
    Found { ime_allowed: bool, ime_purpose: ImePurpose },
}

/// A client request to send to the compositor.
#[derive(Clone, Debug, PartialEq)]
pub enum Request {
    Enable,
    Disable,
    SetSurroundingText { text: Vec<u8>, cursor: i32, anchor: i32 },
    SetContentType { hint: ContentHint, purpose: ContentPurpose },
    SetCursorRectangle { x: i32, y: i32, width: i32, height: i32 },
    Commit,
}

/// Mathematical view of a [`Request`].
pub enum RequestV {
    Enable,
    Disable,
    SetSurroundingText { text: Seq<u8>, cursor: i32, anchor: i32 },
    SetContentType { hint: ContentHint, purpose: ContentPurpose },
    SetCursorRectangle { x: i32, y: i32, width: i32, height: i32 },
    Commit,
}

impl View for Request {
    type V = RequestV;

    open spec fn view(&self) -> RequestV {
        match *self {
            Request::Enable => RequestV::Enable,
            Request::Disable => RequestV::Disable,
            Request::SetSurroundingText { text, cursor, anchor } => {
                RequestV::SetSurroundingText { text: text@, cursor, anchor }
            },
            Request::SetContentType { hint, purpose } => {
                RequestV::SetContentType { hint, purpose }
            },
            Request::SetCursorRectangle { x, y, width, height } => {
                RequestV::SetCursorRectangle { x, y, width, height }
            },
            Request::Commit => RequestV::Commit,
        }
    }
}

/// A notification for the application sink.
#[derive(Clone, Debug, PartialEq)]
pub enum Notice {
    ImeEnabled,
    ImeDisabled,
    /// Ask the focused window to refresh its surrounding-text context.
    ImeRetrieveSurroundingText,
    ImePreedit { text: Vec<u8>, cursor_range: Option<(usize, usize)> },
    /// The protocol supplies no selection or compose-region information, so
    /// those fields are always absent here.
    ImeCommit {
        content: Vec<u8>,
        selection: Option<(usize, usize)>,
        compose_region: Option<(usize, usize)>,
    },
    ImeDeleteSurroundingText { before_length: usize, after_length: usize },
}

/// Mathematical view of a [`Notice`].
pub enum NoticeV {
    ImeEnabled,
    ImeDisabled,
    ImeRetrieveSurroundingText,
    ImePreedit { text: Seq<u8>, cursor_range: Option<(usize, usize)> },
    ImeCommit {
        content: Seq<u8>,
        selection: Option<(usize, usize)>,
        compose_region: Option<(usize, usize)>,
    },
    ImeDeleteSurroundingText { before_length: usize, after_length: usize },
}

impl View for Notice {
    type V = NoticeV;

    open spec fn view(&self) -> NoticeV {
        match *self {
            Notice::ImeEnabled => NoticeV::ImeEnabled,
            Notice::ImeDisabled => NoticeV::ImeDisabled,
            Notice::ImeRetrieveSurroundingText => NoticeV::ImeRetrieveSurroundingText,
            Notice::ImePreedit { text, cursor_range } => {
                NoticeV::ImePreedit { text: text@, cursor_range }
            },
            Notice::ImeCommit { content, selection, compose_region } => {
                NoticeV::ImeCommit { content: content@, selection, compose_region }
            },
            Notice::ImeDeleteSurroundingText { before_length, after_length } => {
                NoticeV::ImeDeleteSurroundingText { before_length, after_length }
            },
        }
    }
}

/// A call on the window bridge: tell the window that this text-input object
/// now serves it, or no longer does.
#[derive(Clone, Copy, PartialEq, Eq, Structural, Debug)]
pub enum BridgeCall {
    Entered,
    Left,
}

/// Everything one dispatched event asks the caller to perform: the compositor
/// requests and the application notifications, each in their mandated order,
/// and the window bridge call, if any.
#[derive(Clone, Debug, PartialEq)]
pub struct Outcome {
    pub requests: Vec<Request>,
    pub notices: Vec<Notice>,
    pub bridge: Option<BridgeCall>,
}

/// Mathematical view of an [`Outcome`].
#[verifier::ext_equal]
pub struct OutcomeV {
    pub requests: Seq<RequestV>,
    pub notices: Seq<NoticeV>,
    pub bridge: Option<BridgeCall>,
}

impl View for Outcome {
    type V = OutcomeV;

    open spec fn view(&self) -> OutcomeV {
        OutcomeV {
            requests: self.requests@.map_values(|r: Request| r@),
            notices: self.notices@.map_values(|n: Notice| n@),
            bridge: self.bridge,
        }
    }
}

impl OutcomeV {
    /// Nothing to perform.
    pub open spec fn empty() -> OutcomeV {
        OutcomeV { requests: Seq::empty(), notices: Seq::empty(), bridge: None }
    }
}

impl Outcome {
    /// An outcome that asks for nothing.
    pub fn empty() -> (r: Outcome)
        ensures
            r@ == OutcomeV::empty(),
    {
        let r = Outcome { requests: Vec::new(), notices: Vec::new(), bridge: None };
        proof {
            assert(r@.requests =~= Seq::<RequestV>::empty());
            assert(r@.notices =~= Seq::<NoticeV>::empty());
        }
        r
    }
}

/// The staged text of an event, with a missing text meaning empty.
pub open spec fn text_or_empty(t: Option<Seq<u8>>) -> Seq<u8> {
    match t {
        Some(s) => s,
        None => Seq::empty(),
    }
}

/// The preedit staged by a preedit-update event: its text, with each raw
/// offset resolved to a validated cursor position or "unknown".
pub open spec fn preedit_of(text: Seq<u8>, cursor_begin: i32, cursor_end: i32) -> PreeditV {
    PreeditV {
        text,
        cursor_begin: spec_validate_position(text, cursor_begin),
        cursor_end: spec_validate_position(text, cursor_end),
    }
}

/// The cursor range a flushed preedit notification carries: `(begin,
/// end-or-begin)` when a begin position is known, otherwise no range.
pub open spec fn cursor_range_of(p: PreeditV) -> Option<(usize, usize)> {
    match p.cursor_begin {
        Some(b) => Some(
            (
                b,
                match p.cursor_end {
                    Some(e) => e,
                    None => b,
                },
            ),
        ),
        None => None,
    }
}

/// How one event changes the input state. Only the transaction boundary
/// consumes staged intents; the other events stage or clear them.
pub open spec fn step_state(s: StateV, e: EventV) -> StateV {
    match e {
        EventV::Enter { surface } => StateV { surface: Some(surface), ..s },
        EventV::Leave { .. } => StateV {
            surface: None,
            pending_commit: None,
            pending_preedit: None,
            pending_surrounding_delete: None,
            ..s
        },
        EventV::PreeditString { text, cursor_begin, cursor_end } => StateV {
            pending_preedit: Some(preedit_of(text_or_empty(text), cursor_begin, cursor_end)),
            ..s
        },
        EventV::CommitString { text } => StateV { pending_preedit: None, pending_commit: text, ..s },
        EventV::DeleteSurroundingText { before_length, after_length } => StateV {
            pending_surrounding_delete: Some(SurroundingDelete { before_length, after_length }),
            ..s
        },
        EventV::Done { serial } => StateV {
            pending_commit: if s.surface is Some {
                None
            } else {
                s.pending_commit
            },
            pending_preedit: if s.surface is Some {
                None
            } else {
                s.pending_preedit
            },
            pending_surrounding_delete: if s.surface is Some {
                None
            } else {
                s.pending_surrounding_delete
            },
            last_done_serial: Some(serial),
            ..s
        },
        EventV::Unknown => s,
    }
}

/// The compositor requests issued on focus entry when the window permits
/// composition: enable, a one-whitespace placeholder surrounding text with
/// cursor and anchor at byte offset 1, the content type for the window's
/// purpose, and the commit that finalizes this atomic batch.
pub open spec fn enter_requests(purpose: ImePurpose) -> Seq<RequestV> {
    seq![
        RequestV::Enable,
        RequestV::SetSurroundingText { text: seq![32u8], cursor: 1, anchor: 1 },
        RequestV::SetContentType {
            hint: spec_content_type(purpose).0,
            purpose: spec_content_type(purpose).1,
        },
        RequestV::Commit,
    ]
}

/// What focus entry performs, by window lookup: nothing for an unknown
/// window; for a known window the enable batch and an enabled notification
/// only when it permits composition, and the bridge registration always.
pub open spec fn enter_outcome(window: WindowLookup) -> OutcomeV {
    match window {
        WindowLookup::Missing => OutcomeV::empty(),
        WindowLookup::Found { ime_allowed, ime_purpose } => OutcomeV {
            requests: if ime_allowed {
                enter_requests(ime_purpose)
            } else {
                Seq::empty()
            },
            notices: if ime_allowed {
                seq![NoticeV::ImeEnabled]
            } else {
                Seq::empty()
            },
            bridge: Some(BridgeCall::Entered),
        },
    }
}

/// What focus leave performs: disable-then-commit unconditionally (even when
/// enable was never sent), and, only when the window still resolves, the
/// bridge unregistration and a disabled notification.
pub open spec fn leave_outcome(window: WindowLookup) -> OutcomeV {
    OutcomeV {
        requests: seq![RequestV::Disable, RequestV::Commit],
        notices: if window is Found {
            seq![NoticeV::ImeDisabled]
        } else {
            Seq::empty()
        },
        bridge: if window is Found {
            Some(BridgeCall::Left)
        } else {
            None
        },
    }
}

/// The delete-surrounding notification flushed at the boundary, if one is
/// staged.
pub open spec fn delete_notices(d: Option<SurroundingDelete>) -> Seq<NoticeV> {
    match d {
        Some(d) => seq![
            NoticeV::ImeDeleteSurroundingText {
                before_length: d.before_length as usize,
                after_length: d.after_length as usize,
            },
        ],
        None => Seq::empty(),
    }
}

/// The commit notification flushed at the boundary, if text is staged.
pub open spec fn commit_notices(t: Option<Seq<u8>>) -> Seq<NoticeV> {
    match t {
        Some(t) => seq![
            NoticeV::ImeCommit { content: t, selection: None, compose_region: None },
        ],
        None => Seq::empty(),
    }
}

/// The preedit notification flushed at the boundary, if one is staged.
pub open spec fn preedit_notices(p: Option<PreeditV>) -> Seq<NoticeV> {
    match p {
        Some(p) => seq![NoticeV::ImePreedit { text: p.text, cursor_range: cursor_range_of(p) }],
        None => Seq::empty(),
    }
}

/// The fixed flush order of a transaction boundary: ask the window to
/// refresh its surrounding text, clear the old preedit explicitly, then the
/// staged delete, commit and preedit, each only if present.
pub open spec fn done_notices(s: StateV) -> Seq<NoticeV> {
    seq![
        NoticeV::ImeRetrieveSurroundingText,
        NoticeV::ImePreedit { text: Seq::empty(), cursor_range: None },
    ] + delete_notices(s.pending_surrounding_delete) + commit_notices(s.pending_commit)
        + preedit_notices(s.pending_preedit)
}

/// What the transaction boundary performs: the ordered flush when a focused
/// surface is recorded, and nothing at all when the transaction is orphaned.
pub open spec fn done_outcome(s: StateV) -> OutcomeV {
    if s.surface is Some {
        OutcomeV { requests: Seq::empty(), notices: done_notices(s), bridge: None }
    } else {
        OutcomeV::empty()
    }
}

/// What one event performs, given the state it found and the caller's window
/// lookup for the relevant surface (the event's own surface for enter and
/// leave; the recorded focused surface for the boundary).
pub open spec fn step_outcome(s: StateV, e: EventV, window: WindowLookup) -> OutcomeV {
    match e {
        EventV::Enter { .. } => enter_outcome(window),
        EventV::Leave { .. } => leave_outcome(window),
        EventV::Done { .. } => done_outcome(s),
        _ => OutcomeV::empty(),
    }
}

/// Focus entry: record the focused surface even when the window is unknown,
/// so a later transaction boundary for it is not treated as orphaned; when
/// the window permits composition, issue the atomic enable batch and notify
/// the application.
pub fn handle_enter(state: &mut TextInputDataInner, surface: u64, window: WindowLookup) -> (r:
    Outcome)
    ensures
        final(state)@ == step_state(old(state)@, EventV::Enter { surface }),
        r@ == enter_outcome(window),
{
    state.surface = Some(surface);
    match window {
        WindowLookup::Missing => Outcome::empty(),
        WindowLookup::Found { ime_allowed, ime_purpose } => {
            let mut requests: Vec<Request> = Vec::new();
            let mut notices: Vec<Notice> = Vec::new();
            if ime_allowed {
                requests.push(Request::Enable);
                let mut placeholder: Vec<u8> = Vec::new();
                placeholder.push(32u8);
                requests.push(
                    Request::SetSurroundingText { text: placeholder, cursor: 1, anchor: 1 },
                );
                let (hint, purpose) = content_type_by_purpose(ime_purpose);
                requests.push(Request::SetContentType { hint, purpose });
                requests.push(Request::Commit);
                notices.push(Notice::ImeEnabled);
                proof {
                    assert(requests@.map_values(|r: Request| r@) =~= enter_requests(ime_purpose));
                    assert(notices@.map_values(|n: Notice| n@) =~= seq![NoticeV::ImeEnabled]);
                }
            } else {
                proof {
                    assert(requests@.map_values(|r: Request| r@) =~= Seq::<RequestV>::empty());
                    assert(notices@.map_values(|n: Notice| n@) =~= Seq::<NoticeV>::empty());
                }
            }
            Outcome { requests, notices, bridge: Some(BridgeCall::Entered) }
        },
    }
}

/// Focus leave: clear the focused surface and every staged intent, and issue
/// disable-then-commit unconditionally as a defence against desynchronized
/// state; notify and unregister only if the window still resolves, since a
/// leave may reference an already-destroyed surface.
pub fn handle_leave(state: &mut TextInputDataInner, surface: u64, window: WindowLookup) -> (r:
    Outcome)
    ensures
        final(state)@ == step_state(old(state)@, EventV::Leave { surface }),
        r@ == leave_outcome(window),
{
    state.surface = None;
    state.pending_commit = None;
    state.pending_preedit = None;
    state.pending_surrounding_delete = None;
    let mut requests: Vec<Request> = Vec::new();
    requests.push(Request::Disable);
    requests.push(Request::Commit);
    let mut notices: Vec<Notice> = Vec::new();
    let bridge: Option<BridgeCall> = match window {
        WindowLookup::Missing => None,
        WindowLookup::Found { .. } => {
            notices.push(Notice::ImeDisabled);
            Some(BridgeCall::Left)
        },
    };
    let r = Outcome { requests, notices, bridge };
    proof {
        assert(r@.requests =~= seq![RequestV::Disable, RequestV::Commit]);
        if window is Found {
            assert(r@.notices =~= seq![NoticeV::ImeDisabled]);
        } else {
            assert(r@.notices =~= Seq::<NoticeV>::empty());
        }
    }
    r
}

/// Preedit update: resolve the raw byte offsets against the new text and
/// stage the preedit, replacing any earlier one in this transaction. A
/// missing text stands for the empty text.
pub fn handle_preedit(
    state: &mut TextInputDataInner,
    text: Option<Vec<u8>>,
    cursor_begin: i32,
    cursor_end: i32,
)
    ensures
        final(state)@ == step_state(
            old(state)@,
            EventV::PreeditString {
                text: match text {
                    Some(t) => Some(t@),
                    None => None,
                },
                cursor_begin,
                cursor_end,
            },
        ),
{
    let text = match text {
        Some(t) => t,
        None => Vec::new(),
    };
    let cursor_begin = validate_position(&text, cursor_begin);
    let cursor_end = validate_position(&text, cursor_end);
    state.pending_preedit = Some(Preedit { text, cursor_begin, cursor_end });
}

/// Commit update: a commit supersedes any preedit not yet flushed in this
/// transaction, so the staged preedit is cleared and the commit text staged
/// in its place (a missing text clears the staged commit).
pub fn handle_commit(state: &mut TextInputDataInner, text: Option<Vec<u8>>)
    ensures
        final(state)@ == step_state(
            old(state)@,
            EventV::CommitString {
                text: match text {
                    Some(t) => Some(t@),
                    None => None,
                },
            },
        ),
{
    state.pending_preedit = None;
    state.pending_commit = text;
}

/// Delete-surrounding update: stage the byte counts; nothing takes effect
/// until the transaction boundary.
pub fn handle_delete_surrounding(
    state: &mut TextInputDataInner,
    before_length: u32,
    after_length: u32,
)
    ensures
        final(state)@ == step_state(
            old(state)@,
            EventV::DeleteSurroundingText { before_length, after_length },
        ),
{
    state.pending_surrounding_delete = Some(SurroundingDelete { before_length, after_length });
}

/// Transaction boundary: record the serial; when a focused surface is
/// recorded, flush every staged intent in the fixed order given by
/// [`done_notices`] and clear the staged fields; when none is, drop the whole
/// transaction silently.
pub fn handle_done(state: &mut TextInputDataInner, serial: u32) -> (r: Outcome)
    ensures
        final(state)@ == step_state(old(state)@, EventV::Done { serial }),
        r@ == done_outcome(old(state)@),
{
    state.last_done_serial = Some(serial);
    if state.surface.is_none() {
        return Outcome::empty();
    }
    let mut notices: Vec<Notice> = Vec::new();
    notices.push(Notice::ImeRetrieveSurroundingText);
    notices.push(Notice::ImePreedit { text: Vec::new(), cursor_range: None });
    let delete = state.pending_surrounding_delete.take();
    if let Some(d) = delete {
        notices.push(
            Notice::ImeDeleteSurroundingText {
                before_length: d.before_length as usize,
                after_length: d.after_length as usize,
            },
        );
    }
    let commit = state.pending_commit.take();
    if let Some(t) = commit {
        notices.push(Notice::ImeCommit { content: t, selection: None, compose_region: None });
    }
    let preedit = state.pending_preedit.take();
    if let Some(p) = preedit {
        let cursor_range: Option<(usize, usize)> = match p.cursor_begin {
            Some(b) => Some(
                (
                    b,
                    match p.cursor_end {
                        Some(e) => e,
                        None => b,
                    },
                ),
            ),
            None => None,
        };
        notices.push(Notice::ImePreedit { text: p.text, cursor_range });
    }
    let r = Outcome { requests: Vec::new(), notices, bridge: None };
    proof {
        assert(r@.requests =~= Seq::<RequestV>::empty());
        assert(r@.notices =~= done_notices(old(state)@));
    }
    r
}

/// Dispatch one protocol event: mutate the input state as [`step_state`]
/// says and return exactly what [`step_outcome`] says to perform. `window`
/// is the caller's registry lookup for the event's surface (for enter and
/// leave); the other events ignore it.
pub fn dispatch(state: &mut TextInputDataInner, event: TextInputEvent, window: WindowLookup) -> (r:
    Outcome)
    ensures
        final(state)@ == step_state(old(state)@, event@),
        r@ == step_outcome(old(state)@, event@, window),
{
    match event {
        TextInputEvent::Enter { surface } => handle_enter(state, surface, window),
        TextInputEvent::Leave { surface } => handle_leave(state, surface, window),
        TextInputEvent::PreeditString { text, cursor_begin, cursor_end } => {
            handle_preedit(state, text, cursor_begin, cursor_end);
            Outcome::empty()
        },
        TextInputEvent::CommitString { text } => {
            handle_commit(state, text);
            Outcome::empty()
        },
        TextInputEvent::DeleteSurroundingText { before_length, after_length } => {
            handle_delete_surrounding(state, before_length, after_length);
            Outcome::empty()
        },
        TextInputEvent::Done { serial } => handle_done(state, serial),
        TextInputEvent::Unknown => Outcome::empty(),
    }
}

} // verus!
