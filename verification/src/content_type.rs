//! Pure mapping from an application-level input purpose to the protocol's
//! content hint/purpose pair, sent once per focus entry when composition is
//! enabled.

use vstd::prelude::*;

use crate::state::ContentHint;
use crate::state::ContentPurpose;
use crate::state::ImePurpose;

verus! {

/// The hint/purpose pair declared to the compositor for a field purpose.
pub open spec fn spec_content_type(purpose: ImePurpose) -> (ContentHint, ContentPurpose) {
    match purpose {
        ImePurpose::Normal => (ContentHint::NoHint, ContentPurpose::Normal),
        ImePurpose::Password => (ContentHint::SensitiveData, ContentPurpose::Password),
        ImePurpose::Terminal => (ContentHint::NoHint, ContentPurpose::Terminal),
    }
}

/// Map a field purpose to the content hint/purpose pair that
/// `set_content_type` carries on the wire.
pub fn content_type_by_purpose(purpose: ImePurpose) -> (r: (ContentHint, ContentPurpose))
    ensures
        r == spec_content_type(purpose),
{
    match purpose {
        ImePurpose::Normal => (ContentHint::NoHint, ContentPurpose::Normal),
        ImePurpose::Password => (ContentHint::SensitiveData, ContentPurpose::Password),
        ImePurpose::Terminal => (ContentHint::NoHint, ContentPurpose::Terminal),
    }
}

} // verus!
