//! Fresh identifiers.
use vstd::prelude::*;

verus! {

/// A fresh identifier from `uuid::Uuid::now_v7()`, in its hyphenated text
/// form. Each call may give a different value; the contract claims only the
/// length of that form, 36 characters.
#[verifier::external_body]
pub fn new_id() -> (id: String)
    ensures
        id@.len() == 36,
{
    uuid::Uuid::now_v7().to_string()
}

} // verus!
