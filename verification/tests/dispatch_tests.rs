use text_input_sync::dispatch::{dispatch, BridgeCall, Notice, Request, TextInputEvent, WindowLookup};
use text_input_sync::state::{ContentHint, ContentPurpose, ImePurpose, TextInputDataInner};

fn bytes(s: &str) -> Vec<u8> {
    s.as_bytes().to_vec()
}

fn focused(surface: u64) -> TextInputDataInner {
    let mut st = TextInputDataInner::new();
    let _ = dispatch(&mut st, TextInputEvent::Enter { surface }, WindowLookup::Missing);
    st
}

#[test]
fn last_preedit_wins_at_boundary() {
    let mut st = focused(1);
    dispatch(
        &mut st,
        TextInputEvent::PreeditString { text: Some(bytes("ab")), cursor_begin: 0, cursor_end: 1 },
        WindowLookup::Missing,
    );
    dispatch(
        &mut st,
        TextInputEvent::PreeditString { text: Some(bytes("xyz")), cursor_begin: 1, cursor_end: 2 },
        WindowLookup::Missing,
    );
    let o = dispatch(&mut st, TextInputEvent::Done { serial: 1 }, WindowLookup::Missing);
    assert_eq!(
        o.notices,
        vec![
            Notice::ImeRetrieveSurroundingText,
            Notice::ImePreedit { text: Vec::new(), cursor_range: None },
            Notice::ImePreedit { text: bytes("xyz"), cursor_range: Some((1, 2)) },
        ]
    );
    assert!(o.requests.is_empty());
}

#[test]
fn preedit_with_invalid_offset_has_no_range() {
    // 0xC3 0xA9 is a two-byte character: offset 1 is inside it.
    let mut st = focused(1);
    dispatch(
        &mut st,
        TextInputEvent::PreeditString { text: Some(bytes("é")), cursor_begin: 1, cursor_end: 2 },
        WindowLookup::Missing,
    );
    let o = dispatch(&mut st, TextInputEvent::Done { serial: 1 }, WindowLookup::Missing);
    assert_eq!(
        o.notices[2],
        Notice::ImePreedit { text: bytes("é"), cursor_range: None }
    );
}

#[test]
fn preedit_end_not_boundary_falls_back_to_begin() {
    let mut st = focused(1);
    dispatch(
        &mut st,
        TextInputEvent::PreeditString { text: Some(bytes("aé")), cursor_begin: 1, cursor_end: 2 },
        WindowLookup::Missing,
    );
    let o = dispatch(&mut st, TextInputEvent::Done { serial: 1 }, WindowLookup::Missing);
    assert_eq!(
        o.notices[2],
        Notice::ImePreedit { text: bytes("aé"), cursor_range: Some((1, 1)) }
    );
}

#[test]
fn negative_offsets_resolve_to_unknown() {
    let mut st = focused(1);
    dispatch(
        &mut st,
        TextInputEvent::PreeditString { text: Some(bytes("ab")), cursor_begin: -1, cursor_end: -7 },
        WindowLookup::Missing,
    );
    let o = dispatch(&mut st, TextInputEvent::Done { serial: 1 }, WindowLookup::Missing);
    assert_eq!(
        o.notices[2],
        Notice::ImePreedit { text: bytes("ab"), cursor_range: None }
    );
}

#[test]
fn missing_preedit_text_means_empty() {
    let mut st = focused(1);
    dispatch(
        &mut st,
        TextInputEvent::PreeditString { text: None, cursor_begin: 0, cursor_end: 0 },
        WindowLookup::Missing,
    );
    let o = dispatch(&mut st, TextInputEvent::Done { serial: 1 }, WindowLookup::Missing);
    assert_eq!(
        o.notices[2],
        Notice::ImePreedit { text: Vec::new(), cursor_range: Some((0, 0)) }
    );
}

#[test]
fn commit_clears_staged_preedit() {
    let mut st = focused(1);
    dispatch(
        &mut st,
        TextInputEvent::PreeditString { text: Some(bytes("ab")), cursor_begin: 0, cursor_end: 1 },
        WindowLookup::Missing,
    );
    dispatch(
        &mut st,
        TextInputEvent::CommitString { text: Some(bytes("x")) },
        WindowLookup::Missing,
    );
    let o = dispatch(&mut st, TextInputEvent::Done { serial: 1 }, WindowLookup::Missing);
    assert_eq!(
        o.notices,
        vec![
            Notice::ImeRetrieveSurroundingText,
            Notice::ImePreedit { text: Vec::new(), cursor_range: None },
            Notice::ImeCommit { content: bytes("x"), selection: None, compose_region: None },
        ]
    );
}

#[test]
fn flush_order_is_fixed() {
    let mut st = focused(1);
    dispatch(
        &mut st,
        TextInputEvent::DeleteSurroundingText { before_length: 1, after_length: 2 },
        WindowLookup::Missing,
    );
    dispatch(
        &mut st,
        TextInputEvent::CommitString { text: Some(bytes("y")) },
        WindowLookup::Missing,
    );
    dispatch(
        &mut st,
        TextInputEvent::PreeditString { text: Some(bytes("z")), cursor_begin: 0, cursor_end: 0 },
        WindowLookup::Missing,
    );
    let o = dispatch(&mut st, TextInputEvent::Done { serial: 4 }, WindowLookup::Missing);
    assert_eq!(
        o.notices,
        vec![
            Notice::ImeRetrieveSurroundingText,
            Notice::ImePreedit { text: Vec::new(), cursor_range: None },
            Notice::ImeDeleteSurroundingText { before_length: 1, after_length: 2 },
            Notice::ImeCommit { content: bytes("y"), selection: None, compose_region: None },
            Notice::ImePreedit { text: bytes("z"), cursor_range: Some((0, 0)) },
        ]
    );
    assert_eq!(st.last_done_serial, Some(4));
    assert!(st.pending_commit.is_none());
    assert!(st.pending_preedit.is_none());
    assert!(st.pending_surrounding_delete.is_none());
}

#[test]
fn leave_issues_disable_then_commit_without_enable() {
    // No enable was ever sent: disable-then-commit must still go out.
    let mut st = TextInputDataInner::new();
    let o = dispatch(&mut st, TextInputEvent::Leave { surface: 9 }, WindowLookup::Missing);
    assert_eq!(o.requests, vec![Request::Disable, Request::Commit]);
    assert!(o.notices.is_empty());
    assert_eq!(o.bridge, None);
    assert!(st.surface.is_none());
}

#[test]
fn leave_on_live_window_notifies_and_unregisters() {
    let mut st = focused(9);
    let w = WindowLookup::Found { ime_allowed: true, ime_purpose: ImePurpose::Normal };
    let o = dispatch(&mut st, TextInputEvent::Leave { surface: 9 }, w);
    assert_eq!(o.requests, vec![Request::Disable, Request::Commit]);
    assert_eq!(o.notices, vec![Notice::ImeDisabled]);
    assert_eq!(o.bridge, Some(BridgeCall::Left));
}

#[test]
fn leave_clears_staged_intents() {
    let mut st = focused(2);
    dispatch(
        &mut st,
        TextInputEvent::CommitString { text: Some(bytes("x")) },
        WindowLookup::Missing,
    );
    dispatch(&mut st, TextInputEvent::Leave { surface: 2 }, WindowLookup::Missing);
    let mut st2 = st;
    dispatch(&mut st2, TextInputEvent::Enter { surface: 2 }, WindowLookup::Missing);
    let o = dispatch(&mut st2, TextInputEvent::Done { serial: 1 }, WindowLookup::Missing);
    // Nothing staged survives the focus exit: only the unconditional steps.
    assert_eq!(
        o.notices,
        vec![
            Notice::ImeRetrieveSurroundingText,
            Notice::ImePreedit { text: Vec::new(), cursor_range: None },
        ]
    );
}

#[test]
fn enter_on_allowing_window_enables_atomically() {
    let mut st = TextInputDataInner::new();
    let w = WindowLookup::Found { ime_allowed: true, ime_purpose: ImePurpose::Terminal };
    let o = dispatch(&mut st, TextInputEvent::Enter { surface: 5 }, w);
    assert_eq!(
        o.requests,
        vec![
            Request::Enable,
            Request::SetSurroundingText { text: bytes(" "), cursor: 1, anchor: 1 },
            Request::SetContentType {
                hint: ContentHint::NoHint,
                purpose: ContentPurpose::Terminal,
            },
            Request::Commit,
        ]
    );
    assert_eq!(o.notices, vec![Notice::ImeEnabled]);
    assert_eq!(o.bridge, Some(BridgeCall::Entered));
    assert_eq!(st.surface, Some(5));
}

#[test]
fn enter_on_disallowing_window_still_records_focus() {
    let mut st = TextInputDataInner::new();
    let w = WindowLookup::Found { ime_allowed: false, ime_purpose: ImePurpose::Normal };
    let o = dispatch(&mut st, TextInputEvent::Enter { surface: 5 }, w);
    assert!(o.requests.is_empty());
    assert!(o.notices.is_empty());
    assert_eq!(o.bridge, Some(BridgeCall::Entered));
    assert_eq!(st.surface, Some(5));

    // A later boundary for that surface is accepted, not dropped as orphaned.
    dispatch(
        &mut st,
        TextInputEvent::CommitString { text: Some(bytes("ok")) },
        WindowLookup::Missing,
    );
    let o2 = dispatch(&mut st, TextInputEvent::Done { serial: 2 }, WindowLookup::Missing);
    assert_eq!(o2.notices.len(), 3);
    assert_eq!(
        o2.notices[2],
        Notice::ImeCommit { content: bytes("ok"), selection: None, compose_region: None }
    );
}

#[test]
fn enter_on_unknown_window_records_focus_only() {
    let mut st = TextInputDataInner::new();
    let o = dispatch(&mut st, TextInputEvent::Enter { surface: 5 }, WindowLookup::Missing);
    assert!(o.requests.is_empty());
    assert!(o.notices.is_empty());
    assert_eq!(o.bridge, None);
    assert_eq!(st.surface, Some(5));
}

#[test]
fn orphaned_boundary_is_dropped_silently() {
    let mut st = TextInputDataInner::new();
    dispatch(
        &mut st,
        TextInputEvent::CommitString { text: Some(bytes("x")) },
        WindowLookup::Missing,
    );
    let o = dispatch(&mut st, TextInputEvent::Done { serial: 7 }, WindowLookup::Missing);
    assert!(o.requests.is_empty());
    assert!(o.notices.is_empty());
    assert_eq!(o.bridge, None);
    // The staged commit is untouched and the serial is still recorded.
    assert_eq!(st.pending_commit, Some(bytes("x")));
    assert_eq!(st.last_done_serial, Some(7));
}

#[test]
fn commit_with_no_text_clears_staged_commit() {
    let mut st = focused(1);
    dispatch(
        &mut st,
        TextInputEvent::CommitString { text: Some(bytes("x")) },
        WindowLookup::Missing,
    );
    dispatch(&mut st, TextInputEvent::CommitString { text: None }, WindowLookup::Missing);
    let o = dispatch(&mut st, TextInputEvent::Done { serial: 1 }, WindowLookup::Missing);
    assert_eq!(o.notices.len(), 2);
}

#[test]
fn unknown_event_is_ignored() {
    let mut st = focused(3);
    let o = dispatch(&mut st, TextInputEvent::Unknown, WindowLookup::Missing);
    assert!(o.requests.is_empty());
    assert!(o.notices.is_empty());
    assert_eq!(o.bridge, None);
    assert_eq!(st.surface, Some(3));
}

#[test]
fn delete_surrounding_is_staged_not_applied() {
    let mut st = focused(1);
    let o = dispatch(
        &mut st,
        TextInputEvent::DeleteSurroundingText { before_length: 3, after_length: 4 },
        WindowLookup::Missing,
    );
    assert!(o.notices.is_empty());
    let d = st.pending_surrounding_delete.unwrap();
    assert_eq!((d.before_length, d.after_length), (3, 4));
}
