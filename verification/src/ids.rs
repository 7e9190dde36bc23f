//! Fresh identifiers: account ids at creation and transaction ids of audit
//! records are random UUIDs.

use vstd::prelude::*;

verus! {

/// Relies on uuid's `Uuid::new_v4` and its `Display` form (the hyphenated
/// lower-case rendering of exactly 36 characters): a freshly drawn random
/// identifier. The value is random, so only its length is stated.
#[verifier::external_body]
pub fn new_uuid_string() -> (r: String)
    ensures
        r@.len() == 36,
{
    uuid::Uuid::new_v4().to_string()
}

} // verus!
