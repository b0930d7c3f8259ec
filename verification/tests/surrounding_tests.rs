use text_input_sync::boundary::{is_char_boundary, validate_position};
use text_input_sync::content_type::content_type_by_purpose;
use text_input_sync::dispatch::Request;
use text_input_sync::state::{ChangeCause, ContentHint, ContentPurpose, ImePurpose, TextInputDataInner};
use text_input_sync::surrounding::{notify_im_change, truncate_surrounding};

fn bytes(s: &str) -> Vec<u8> {
    s.as_bytes().to_vec()
}

#[test]
fn char_boundaries_match_utf8() {
    let t = bytes("aé!"); // 0x61, 0xC3 0xA9, 0x21
    assert!(is_char_boundary(&t, 0));
    assert!(is_char_boundary(&t, 1));
    assert!(!is_char_boundary(&t, 2));
    assert!(is_char_boundary(&t, 3));
    assert!(is_char_boundary(&t, 4));
    assert!(!is_char_boundary(&t, 5));
}

#[test]
fn validate_position_rejects_bad_offsets() {
    let t = bytes("é");
    assert_eq!(validate_position(&t, 0), Some(0));
    assert_eq!(validate_position(&t, 1), None);
    assert_eq!(validate_position(&t, 2), Some(2));
    assert_eq!(validate_position(&t, 3), None);
    assert_eq!(validate_position(&t, -1), None);
}

#[test]
fn content_type_mapping() {
    assert_eq!(
        content_type_by_purpose(ImePurpose::Normal),
        (ContentHint::NoHint, ContentPurpose::Normal)
    );
    assert_eq!(
        content_type_by_purpose(ImePurpose::Password),
        (ContentHint::SensitiveData, ContentPurpose::Password)
    );
    assert_eq!(
        content_type_by_purpose(ImePurpose::Terminal),
        (ContentHint::NoHint, ContentPurpose::Terminal)
    );
}

#[test]
fn truncate_keeps_fitting_text_whole() {
    let t = bytes("hello");
    let (out, c, a) = truncate_surrounding(&t, 2, 5, 4000);
    assert_eq!(out, bytes("hello"));
    assert_eq!((c, a), (2, 5));
}

#[test]
fn truncate_is_symmetric_around_cursor() {
    let t = bytes("hello, world");
    let (out, c, a) = truncate_surrounding(&t, 5, 5, 6);
    assert_eq!(out, bytes("llo, w"));
    assert_eq!((c, a), (3, 3));
}

#[test]
fn truncate_never_cuts_inside_a_character() {
    let t = bytes("ééé"); // six bytes, three two-byte characters
    let (out, c, a) = truncate_surrounding(&t, 2, 2, 3);
    // A three-byte window cannot hold one and a half characters: the window
    // shrinks to whole characters on both sides.
    assert_eq!(out, bytes("é"));
    assert_eq!((c, a), (0, 0));
}

#[test]
fn truncate_clamps_anchor_into_window() {
    let t = bytes("abcdefgh");
    let (out, c, a) = truncate_surrounding(&t, 6, 0, 4);
    assert_eq!(out, bytes("efgh"));
    assert_eq!((c, a), (2, 0));
}

#[test]
fn truncate_empty_budget_yields_empty_window() {
    let t = bytes("abc");
    let (out, c, a) = truncate_surrounding(&t, 1, 1, 0);
    assert_eq!(out, Vec::<u8>::new());
    assert_eq!((c, a), (0, 0));
}

#[test]
fn im_change_batch_is_atomic() {
    let mut st = TextInputDataInner::new();
    let reqs = notify_im_change(
        &mut st,
        ChangeCause::InputMethod,
        bytes("hi"),
        1,
        2,
        ImePurpose::Password,
        Some((10, 20, 30, 40)),
        4000,
    );
    assert_eq!(
        reqs,
        vec![
            Request::SetSurroundingText { text: bytes("hi"), cursor: 1, anchor: 2 },
            Request::SetContentType {
                hint: ContentHint::SensitiveData,
                purpose: ContentPurpose::Password,
            },
            Request::SetCursorRectangle { x: 10, y: 20, width: 30, height: 40 },
            Request::Commit,
        ]
    );
    assert_eq!(st.surrounding_change, Some(ChangeCause::InputMethod));
    let s = st.surrounding.unwrap();
    assert_eq!(s.text, bytes("hi"));
    assert_eq!((s.cursor_idx, s.anchor_idx), (1, 2));
}

#[test]
fn im_change_without_rectangle_omits_it() {
    let mut st = TextInputDataInner::new();
    let reqs = notify_im_change(
        &mut st,
        ChangeCause::Other,
        bytes("x"),
        0,
        0,
        ImePurpose::Normal,
        None,
        4000,
    );
    assert_eq!(reqs.len(), 3);
    assert_eq!(reqs[2], Request::Commit);
    assert_eq!(st.surrounding_change, Some(ChangeCause::Other));
}

#[test]
fn im_change_truncates_long_context() {
    let mut st = TextInputDataInner::new();
    let reqs = notify_im_change(
        &mut st,
        ChangeCause::Other,
        bytes("hello, world"),
        5,
        5,
        ImePurpose::Normal,
        None,
        6,
    );
    assert_eq!(
        reqs[0],
        Request::SetSurroundingText { text: bytes("llo, w"), cursor: 3, anchor: 3 }
    );
}
