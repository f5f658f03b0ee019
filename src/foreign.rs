//! Types of other crates that the library's records carry through unchanged.
use vstd::prelude::*;

verus! {

/// `serde_json::Error`: why a JSON document failed to decode, held opaquely.
#[verifier::external_type_specification]
#[verifier::external_body]
pub struct ExJsonError(serde_json::Error);

} // verus!
