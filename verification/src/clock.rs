//! The wall clock, read through the `chrono` crate.

use vstd::prelude::*;

verus! {

/// Relies on `chrono::Utc::now` and `DateTime::timestamp_millis`: the
/// current wall-clock time as milliseconds since the Unix epoch. Nothing is
/// assumed of the value.
#[verifier::external_body]
pub(crate) fn current_millis() -> (r: i64) {
    chrono::Utc::now().timestamp_millis()
}

} // verus!
