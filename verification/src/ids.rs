//! Fresh identifiers for sessions and automated messages.

use vstd::prelude::*;

verus! {

/// Relies on uuid::Uuid::new_v4 and its Display form: a fresh random UUID
/// rendered as the 36-character hyphenated string. Nothing is promised of
/// which identifier comes back.
#[verifier::external_body]
pub(crate) fn fresh_id() -> (r: String)
    ensures
        r@.len() == 36,
{
    uuid::Uuid::new_v4().to_string()
}

} // verus!
