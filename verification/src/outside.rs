//! Declarations of the outside types that the library carries, and the
//! trusted wrappers around the outside functions that it calls.

use vstd::prelude::*;

verus! {

/// An arbitrary JSON document (`serde_json::Value`), carried as the optional
/// details of an error. The library never looks inside it.
#[verifier::external_type_specification]
#[verifier::external_body]
pub struct ExJsonValue(serde_json::Value);

/// An HTTP status code (`http::StatusCode`).
#[verifier::external_type_specification]
#[verifier::external_body]
pub struct ExStatusCode(http::StatusCode);

/// The number that `http::StatusCode::as_u16` returns for a status code.
pub uninterp spec fn http_status_number(s: http::StatusCode) -> u16;

/// Calls `http::StatusCode::from_u16`. Its source returns `Ok` exactly for
/// `100..=999`, which `requires` demands, so the `unwrap` never panics; the
/// status code it builds stores `n`, which `as_u16` hands back. That round
/// trip is all the contract claims.
#[verifier::external_body]
pub(crate) fn status_from_u16(n: u16) -> (s: http::StatusCode)
    requires
        100 <= n <= 999,
    ensures
        http_status_number(s) == n,
{
    http::StatusCode::from_u16(n).unwrap()
}

} // verus!
