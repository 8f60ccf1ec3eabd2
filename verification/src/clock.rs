use vstd::prelude::*;

verus! {

/// Relies on chrono::Utc::now and DateTime::timestamp_millis: the
/// current wall-clock time as milliseconds since the Unix epoch.
/// Nothing can be promised of the value; every operation that is
/// given a timestamp states what holds whatever time came back.
#[verifier::external_body]
pub(crate) fn now_millis() -> u64 {
    chrono::Utc::now().timestamp_millis() as u64
}

} // verus!
