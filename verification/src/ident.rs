//! Identifiers for new entities.

use vstd::prelude::*;

verus! {

/// A new random identifier: `uuid::Uuid::new_v4`, rendered through its
/// `Display`, which writes the hyphenated form. The value is random, so the
/// contract claims only the length of that form, 36 characters.
#[verifier::external_body]
pub(crate) fn fresh_id() -> (id: String)
    ensures
        id@.len() == 36,
{
    uuid::Uuid::new_v4().to_string()
}

} // verus!
