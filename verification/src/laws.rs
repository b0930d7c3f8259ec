//! Laws of the dispatcher, stated over the spec-level transition model and
//! proved once for all states and inputs.

use vstd::prelude::*;

use crate::boundary::spec_is_char_boundary;
use crate::boundary::spec_validate_position;
use crate::dispatch::commit_notices;
use crate::dispatch::cursor_range_of;
use crate::dispatch::delete_notices;
use crate::dispatch::done_notices;
use crate::dispatch::done_outcome;
use crate::dispatch::enter_outcome;
use crate::dispatch::preedit_of;
use crate::dispatch::step_state;
use crate::dispatch::text_or_empty;
use crate::dispatch::EventV;
use crate::dispatch::NoticeV;
use crate::dispatch::OutcomeV;
use crate::dispatch::RequestV;
use crate::dispatch::WindowLookup;
use crate::state::ImePurpose;
use crate::state::PreeditV;
use crate::state::StateV;

verus! {

/// The state after dispatching a whole sequence of events, first to last.
pub open spec fn steps_state(s: StateV, evs: Seq<EventV>) -> StateV
    decreases evs.len(),
{
    if evs.len() == 0 {
        s
    } else {
        steps_state(step_state(s, evs[0]), evs.subrange(1, evs.len() as int))
    }
}

/// Whether an event is a preedit update.
pub open spec fn is_preedit_event(e: EventV) -> bool {
    e matches EventV::PreeditString { .. }
}

/// The preedit a preedit-update event stages.
pub open spec fn preedit_of_event(e: EventV) -> PreeditV
    recommends
        is_preedit_event(e),
{
    match e {
        EventV::PreeditString { text, cursor_begin, cursor_end } => preedit_of(
            text_or_empty(text),
            cursor_begin,
            cursor_end,
        ),
        _ => PreeditV { text: Seq::empty(), cursor_begin: None, cursor_end: None },
    }
}

/// A run of preedit updates only replaces the staged preedit: afterwards the
/// last update's preedit is staged and every other part of the state is as it
/// was.
pub proof fn lemma_preedit_fold(s: StateV, evs: Seq<EventV>)
    requires
        evs.len() > 0,
        forall|i: int| 0 <= i < evs.len() ==> is_preedit_event(#[trigger] evs[i]),
    ensures
        steps_state(s, evs) == (StateV {
            pending_preedit: Some(preedit_of_event(evs[evs.len() - 1])),
            ..s
        }),
    decreases evs.len(),
{
    let s1 = step_state(s, evs[0]);
    let rest = evs.subrange(1, evs.len() as int);
    if evs.len() == 1 {
        assert(steps_state(s1, rest) == s1);
    } else {
        assert(forall|i: int| 0 <= i < rest.len() ==> is_preedit_event(#[trigger] rest[i]));
        lemma_preedit_fold(s1, rest);
        assert(rest[rest.len() - 1] == evs[evs.len() - 1]);
    }
}

/// For any focused state and any non-empty run of preedit updates followed
/// by a transaction boundary: the boundary's flush ends with a preedit
/// notification whose text is the last update's text, and that notification
/// carries a cursor range exactly when the last update's begin offset was a
/// valid character boundary of that text.
pub proof fn lemma_last_preedit_wins(
    s: StateV,
    evs: Seq<EventV>,
    text: Option<Seq<u8>>,
    cursor_begin: i32,
    cursor_end: i32,
)
    requires
        s.surface is Some,
        evs.len() > 0,
        forall|i: int| 0 <= i < evs.len() ==> is_preedit_event(#[trigger] evs[i]),
        evs[evs.len() - 1] == (EventV::PreeditString { text, cursor_begin, cursor_end }),
    ensures
        ({
            let sn = steps_state(s, evs);
            let notices = done_outcome(sn).notices;
            let t = text_or_empty(text);
            let p = preedit_of(t, cursor_begin, cursor_end);
            &&& sn.surface == s.surface
            &&& notices.len() > 0
            &&& notices.last() == (NoticeV::ImePreedit { text: t, cursor_range: cursor_range_of(p) })
            &&& (cursor_range_of(p) is None <==> spec_validate_position(t, cursor_begin) is None)
        }),
{
    lemma_preedit_fold(s, evs);
}

/// Focus entry on a window that disallows composition issues no compositor
/// request and no notification, yet still records focus: a transaction
/// boundary that follows is processed (its flush begins with the context
/// refresh and the preedit clear), not dropped as orphaned.
pub proof fn lemma_enter_disallowed_then_done(
    s: StateV,
    surface: u64,
    purpose: ImePurpose,
)
    ensures
        ({
            let w = WindowLookup::Found { ime_allowed: false, ime_purpose: purpose };
            let s1 = step_state(s, EventV::Enter { surface });
            &&& enter_outcome(w).requests == Seq::<RequestV>::empty()
            &&& enter_outcome(w).notices == Seq::<NoticeV>::empty()
            &&& s1.surface == Some(surface)
            &&& done_outcome(s1).notices == done_notices(s1)
            &&& done_outcome(s1).notices.len() >= 2
        }),
{
}

/// A commit supersedes any preedit staged earlier in the same transaction:
/// after a commit event nothing is staged as preedit, and the following
/// boundary flushes no preedit notification besides the unconditional clear.
pub proof fn lemma_commit_clears_preedit(s: StateV, text: Option<Seq<u8>>)
    ensures
        ({
            let s1 = step_state(s, EventV::CommitString { text });
            &&& s1.pending_preedit is None
            &&& done_notices(s1) == seq![
                NoticeV::ImeRetrieveSurroundingText,
                NoticeV::ImePreedit { text: Seq::empty(), cursor_range: None },
            ] + delete_notices(s1.pending_surrounding_delete) + commit_notices(text)
            &&& forall|i: int|
                2 <= i < done_notices(s1).len() ==> !(#[trigger] done_notices(s1)[i]
                    matches NoticeV::ImePreedit { .. })
        }),
{
    let s1 = step_state(s, EventV::CommitString { text });
    assert(done_notices(s1) =~= seq![
        NoticeV::ImeRetrieveSurroundingText,
        NoticeV::ImePreedit { text: Seq::empty(), cursor_range: None },
    ] + delete_notices(s1.pending_surrounding_delete) + commit_notices(text));
}

/// Focus exit resets every staged intent, so a transaction boundary that
/// arrives after a leave is orphaned: it flushes nothing at all.
pub proof fn lemma_leave_orphans_boundary(s: StateV, surface: u64)
    ensures
        ({
            let s1 = step_state(s, EventV::Leave { surface });
            &&& s1.pending_commit is None
            &&& s1.pending_preedit is None
            &&& s1.pending_surrounding_delete is None
            &&& done_outcome(s1) == OutcomeV::empty()
        }),
{
}

/// Every dispatch step preserves well-formedness: however events interleave,
/// a staged preedit's cursor positions are always character boundaries of
/// its text.
pub proof fn lemma_step_preserves_wf(s: StateV, e: EventV)
    requires
        s.wf(),
    ensures
        step_state(s, e).wf(),
{
}

/// For any text and any pair of byte offsets `(b, e)` with
/// `0 <= b <= e <= length`: when both are character boundaries, the staged
/// cursor range is exactly `(b, e)`; each component of the staged preedit is
/// present exactly when its offset is a character boundary.
pub proof fn lemma_cursor_range_exact(text: Seq<u8>, b: i32, e: i32)
    requires
        0 <= b <= e <= text.len(),
    ensures
        ({
            let p = preedit_of(text, b, e);
            &&& (spec_is_char_boundary(text, b as int) && spec_is_char_boundary(text, e as int))
                ==> cursor_range_of(p) == Some((b as usize, e as usize))
            &&& (p.cursor_begin is Some <==> spec_is_char_boundary(text, b as int))
            &&& (p.cursor_end is Some <==> spec_is_char_boundary(text, e as int))
        }),
{
}

} // verus!
