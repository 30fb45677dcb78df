use vstd::prelude::*;

verus! {

/// The transport's failure type (connection refused, timeout, DNS, TLS).
#[verifier::external_type_specification]
#[verifier::external_body]
pub struct ExReqwestError(reqwest::Error);

/// A JSON document as the decoder holds it.
#[verifier::external_type_specification]
#[verifier::external_body]
pub struct ExJsonValue(serde_json::Value);

/// The JSON decoder's failure type.
#[verifier::external_type_specification]
#[verifier::external_body]
pub struct ExJsonError(serde_json::Error);

} // verus!

verus! {

/// A name for what `Duration::from_secs` returns: the same count of seconds
/// always gives the same duration.
pub uninterp spec fn duration_from_secs(secs: u64) -> std::time::Duration;

/// Relies on `std::time::Duration::from_secs`, which never panics and depends
/// on its argument alone.
pub assume_specification[ std::time::Duration::from_secs ](secs: u64) -> (r: std::time::Duration)
    ensures
        r == duration_from_secs(secs),
;

/// Relies on `Clone` for `std::time::Duration`, a `Copy` type: the clone is
/// the same value.
pub assume_specification[ <std::time::Duration as Clone>::clone ](d: &std::time::Duration) -> (r: std::time::Duration)
    ensures
        r == *d,
;

} // verus!
