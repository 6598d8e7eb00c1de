//! Opaque identifiers drawn from uuid: access tokens and trace identifiers.

use vstd::prelude::*;

verus! {

/// Relies on uuid's Uuid::new_v4 and its hyphenated lower-case Display
/// form: 32 hexadecimal digits and 4 hyphens, 36 characters in all. The
/// value is random, so nothing more is promised of it.
#[verifier::external_body]
pub(crate) fn uuid_v4_string() -> (r: String)
    ensures
        r@.len() == 36,
{
    uuid::Uuid::new_v4().to_string()
}

} // verus!
