//! Fresh identifiers for tool calls that arrive without one.

use vstd::prelude::*;

verus! {

/// `Uuid::new_v4().to_string()`: a random version-4 UUID in its hyphenated
/// form, which is 36 characters long. Nothing else is claimed of it: two
/// calls may return anything of that length. The call fails only if the
/// operating system cannot supply random bytes.
#[verifier::external_body]
pub(crate) fn fresh_call_id() -> (r: String)
    ensures
        r@.len() == 36,
{
    uuid::Uuid::new_v4().to_string()
}

} // verus!
