//! The per-protocol-object input state and its mathematical view.
//!
//! One `TextInputDataInner` exists per bound text-input object (one per
//! seat). It is double-buffered: the `pending_*` fields stage intents carried
//! by individual protocol events, and a transaction boundary consumes them
//! all at once. Text is held as UTF-8 bytes, so character-boundary facts can
//! be stated directly over the byte sequence.

use vstd::prelude::*;

use crate::boundary::spec_is_char_boundary;

verus! {

/// Application-level purpose of the focused input field.
#[derive(Clone, Copy, PartialEq, Eq, Structural, Debug)]
pub enum ImePurpose {
    Normal,
    Password,
    Terminal,
}

/// Protocol content hint sent with `set_content_type`.
#[derive(Clone, Copy, PartialEq, Eq, Structural, Debug)]
pub enum ContentHint {
    NoHint,
    SensitiveData,
}

/// Protocol content purpose sent with `set_content_type`.
#[derive(Clone, Copy, PartialEq, Eq, Structural, Debug)]
pub enum ContentPurpose {
    Normal,
    Password,
    Terminal,
}

/// Why the surrounding text last changed.
#[derive(Clone, Copy, PartialEq, Eq, Structural, Debug)]
pub enum ChangeCause {
    InputMethod,
    Other,
}

/// A staged preedit: provisional composed text with validated cursor
/// positions. A cursor field is `None` when the compositor supplied an
/// offset that was not a character boundary of `text`.
pub struct Preedit {
    pub text: Vec<u8>,
    pub cursor_begin: Option<usize>,
    pub cursor_end: Option<usize>,
}

/// Mathematical view of a [`Preedit`].
#[verifier::ext_equal]
pub struct PreeditV {
    pub text: Seq<u8>,
    pub cursor_begin: Option<usize>,
    pub cursor_end: Option<usize>,
}

impl PreeditV {
    /// Well-formedness: a cursor position, when present, is a character
    /// boundary of the preedit text.
    pub open spec fn wf(self) -> bool {
        &&& (self.cursor_begin matches Some(b) ==> spec_is_char_boundary(self.text, b as int))
        &&& (self.cursor_end matches Some(e) ==> spec_is_char_boundary(self.text, e as int))
    }
}

impl View for Preedit {
    type V = PreeditV;

    open spec fn view(&self) -> PreeditV {
        PreeditV {
            text: self.text@,
            cursor_begin: self.cursor_begin,
            cursor_end: self.cursor_end,
        }
    }
}

/// The surrounding-text context last sent to the compositor: the text around
/// the cursor, with cursor and anchor byte positions relative to it.
pub struct Surrounding {
    pub text: Vec<u8>,
    pub cursor_idx: i32,
    pub anchor_idx: i32,
}

/// Mathematical view of a [`Surrounding`].
#[verifier::ext_equal]
pub struct SurroundingV {
    pub text: Seq<u8>,
    pub cursor_idx: i32,
    pub anchor_idx: i32,
}

impl View for Surrounding {
    type V = SurroundingV;

    open spec fn view(&self) -> SurroundingV {
        SurroundingV { text: self.text@, cursor_idx: self.cursor_idx, anchor_idx: self.anchor_idx }
    }
}

/// A staged delete-surrounding-text intent: byte counts to remove before and
/// after the current text, applied only at the transaction boundary.
#[derive(Clone, Copy, PartialEq, Eq, Structural, Debug)]
pub struct SurroundingDelete {
    pub before_length: u32,
    pub after_length: u32,
}

/// Per-protocol-object input state: the focused surface and the staged
/// (double-buffered) intents awaiting the next transaction boundary.
pub struct TextInputDataInner {
    /// Identity of the surface we are performing input to, if any.
    pub surface: Option<u64>,
    /// The commit text to deliver on the next transaction boundary.
    pub pending_commit: Option<Vec<u8>>,
    /// The preedit to deliver on the next transaction boundary.
    pub pending_preedit: Option<Preedit>,
    /// The delete-surrounding intent for the next transaction boundary.
    pub pending_surrounding_delete: Option<SurroundingDelete>,
    /// The surrounding-text context last sent to the compositor.
    pub surrounding: Option<Surrounding>,
    /// Why the surrounding text last changed.
    pub surrounding_change: Option<ChangeCause>,
    /// Serial of the last transaction boundary seen, kept to let a caller
    /// detect a boundary racing a very recent focus change.
    pub last_done_serial: Option<u32>,
}

/// Mathematical view of a [`TextInputDataInner`].
#[verifier::ext_equal]
pub struct StateV {
    pub surface: Option<u64>,
    pub pending_commit: Option<Seq<u8>>,
    pub pending_preedit: Option<PreeditV>,
    pub pending_surrounding_delete: Option<SurroundingDelete>,
    pub surrounding: Option<SurroundingV>,
    pub surrounding_change: Option<ChangeCause>,
    pub last_done_serial: Option<u32>,
}

impl View for TextInputDataInner {
    type V = StateV;

    open spec fn view(&self) -> StateV {
        StateV {
            surface: self.surface,
            pending_commit: match self.pending_commit {
                Some(t) => Some(t@),
                None => None,
            },
            pending_preedit: match self.pending_preedit {
                Some(p) => Some(p@),
                None => None,
            },
            pending_surrounding_delete: self.pending_surrounding_delete,
            surrounding: match self.surrounding {
                Some(s) => Some(s@),
                None => None,
            },
            surrounding_change: self.surrounding_change,
            last_done_serial: self.last_done_serial,
        }
    }
}

impl StateV {
    /// Well-formedness: whatever preedit is staged is itself well-formed.
    pub open spec fn wf(self) -> bool {
        self.pending_preedit matches Some(p) ==> p.wf()
    }

    /// The state of a freshly created protocol object: nothing focused,
    /// nothing staged.
    pub open spec fn empty() -> StateV {
        StateV {
            surface: None,
            pending_commit: None,
            pending_preedit: None,
            pending_surrounding_delete: None,
            surrounding: None,
            surrounding_change: None,
            last_done_serial: None,
        }
    }
}

impl TextInputDataInner {
    /// A fresh input state, as created alongside its protocol object.
    pub fn new() -> (r: TextInputDataInner)
        ensures
            r@ == StateV::empty(),
    {
        TextInputDataInner {
            surface: None,
            pending_commit: None,
            pending_preedit: None,
            pending_surrounding_delete: None,
            surrounding: None,
            surrounding_change: None,
            last_done_serial: None,
        }
    }
}

impl Default for TextInputDataInner {
    fn default() -> (r: TextInputDataInner)
        ensures
            r@ == StateV::empty(),
    {
        TextInputDataInner::new()
    }
}

} // verus!
