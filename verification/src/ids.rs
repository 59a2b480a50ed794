//! Trusted generation of fresh identifiers.

use vstd::prelude::*;

verus! {

/// Relies on uuid's `Uuid::new_v4` and its `Display` form: a fresh random
/// version-4 UUID rendered as text. The value is random, so nothing is
/// promised of it.
#[verifier::external_body]
pub fn new_uuid_string() -> String {
    uuid::Uuid::new_v4().to_string()
}

} // verus!
