//! Fresh identifiers and the current time.
use vstd::prelude::*;

verus! {

/// Relies on `uuid::Uuid::new_v4`, read as its 128-bit value: a random identifier.
#[verifier::external_body]
pub(crate) fn new_id() -> (r: u128) {
    uuid::Uuid::new_v4().as_u128()
}

/// Relies on `chrono::Utc::now().timestamp_millis()`: the current instant in
/// milliseconds since the Unix epoch.
#[verifier::external_body]
pub(crate) fn now_millis() -> (r: i64) {
    chrono::Utc::now().timestamp_millis()
}

} // verus!
