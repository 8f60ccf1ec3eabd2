use vstd::prelude::*;

verus! {

/// Relies on uuid::Uuid::new_v4 and its Display form: a random
/// version-4 UUID rendered in hyphenated form, which is 36
/// characters long. The value is random, so nothing more is
/// promised; a caller that needs a fresh key checks the table
/// itself.
#[verifier::external_body]
pub(crate) fn new_key() -> (r: String)
    ensures
        r@.len() == 36,
{
    uuid::Uuid::new_v4().to_string()
}

} // verus!
