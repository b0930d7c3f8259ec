//! Byte-offset validation against UTF-8 character boundaries.
//!
//! Preedit cursor offsets arrive from the compositor as raw byte counts into
//! the preedit text. An offset is usable only if it lands on a character
//! boundary of that text; anything else (negative, out of range, or inside a
//! multi-byte character) resolves to "position unknown" rather than an error.

use vstd::prelude::*;

verus! {

/// A UTF-8 continuation byte: the second or later byte of a multi-byte
/// character, of the form `10xxxxxx`.
pub open spec fn is_cont_byte(b: u8) -> bool {
    0x80 <= b < 0xC0
}

/// Byte index `i` is a character boundary of the UTF-8 text `s`: the start,
/// the end, or a byte that does not continue an earlier character.
pub open spec fn spec_is_char_boundary(s: Seq<u8>, i: int) -> bool {
    i == 0 || i == s.len() || (0 <= i < s.len() && !is_cont_byte(s[i]))
}

/// Whether byte index `idx` is a character boundary of the UTF-8 text `text`.
pub fn is_char_boundary(text: &Vec<u8>, idx: usize) -> (r: bool)
    ensures
        r == spec_is_char_boundary(text@, idx as int),
{
    if idx == 0 || idx == text.len() {
        true
    } else if idx < text.len() {
        let b = text[idx];
        !(0x80 <= b && b < 0xC0)
    } else {
        false
    }
}

/// The validated form of a compositor-supplied cursor offset: the offset as an
/// index when it is a non-negative character boundary of `s`, otherwise
/// "position unknown".
pub open spec fn spec_validate_position(s: Seq<u8>, off: i32) -> Option<usize> {
    if 0 <= off && spec_is_char_boundary(s, off as int) {
        Some(off as usize)
    } else {
        None
    }
}

/// Resolve a raw byte offset to a validated cursor position within `text`,
/// or `None` when it is negative, out of range, or not a character boundary.
pub fn validate_position(text: &Vec<u8>, off: i32) -> (r: Option<usize>)
    ensures
        r == spec_validate_position(text@, off),
{
    if off < 0 {
        return None;
    }
    let idx = off as usize;
    if is_char_boundary(text, idx) {
        Some(idx)
    } else {
        None
    }
}

} // verus!
