//! Fresh record identifiers.

use vstd::prelude::*;

verus! {

/// Calls `uuid::Uuid::new_v4` and returns its 128 bits
/// (`Uuid::as_u128`). The value is random: nothing is claimed of it.
#[verifier::external_body]
pub(crate) fn new_id() -> u128 {
    uuid::Uuid::new_v4().as_u128()
}

} // verus!
