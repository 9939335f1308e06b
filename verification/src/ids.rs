//! Fresh random identifiers.
use vstd::prelude::*;

verus! {

/// Calls `uuid::Uuid::new_v4` and writes the UUID in its hyphenated form (`Display`). The
/// value is random: the contract claims only the length of that form, 32 hexadecimal digits
/// and 4 hyphens.
#[verifier::external_body]
pub fn new_v4_string() -> (r: String)
    ensures
        r@.len() == 36,
{
    uuid::Uuid::new_v4().to_string()
}

} // verus!
