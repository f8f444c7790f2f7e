//! Declarations of outside types that the library's signatures mention.
//!
//! Each type is held opaquely: the library never looks inside a value of
//! these types, it only carries them through.

use vstd::prelude::*;

verus! {

/// `std::io::Error`: carried inside the library's error values and handed in
/// as the result of a socket's pending-error query.
#[verifier::external_type_specification]
#[verifier::external_body]
pub struct ExIoError(std::io::Error);

/// `serde_json::Value`: an opaque JSON document describing one request,
/// handed to the staging serializer.
#[verifier::external_type_specification]
#[verifier::external_body]
pub struct ExJsonValue(serde_json::Value);

} // verus!
