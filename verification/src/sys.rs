use vstd::prelude::*;
use crate::quote::v4_id;

verus! {

/// Relies on uuid::Uuid::new_v4 (via Uuid::as_u128): a freshly drawn random
/// identifier. Its value depends on the random generator, so nothing is
/// stated beyond what holds of every draw: the version and variant bits
/// the generator sets.
#[verifier::external_body]
pub(crate) fn fresh_id() -> (r: u128)
    ensures
        v4_id(r),
{
    uuid::Uuid::new_v4().as_u128()
}

/// Relies on chrono::Utc::now (via DateTime::timestamp_micros): the current
/// time as microseconds since the Unix epoch. The value depends on the
/// clock, so nothing is stated of it.
#[verifier::external_body]
pub(crate) fn now_micros() -> i64 {
    chrono::Utc::now().timestamp_micros()
}

} // verus!
