use crate::message::Timestamp;
use vstd::prelude::*;

verus! {

/// Relies on chrono's `UTC::now`, `DateTime::timestamp` and
/// `DateTime::timestamp_subsec_nanos`: the current time; nothing is known of
/// its value.
#[verifier::external_body]
pub(crate) fn now() -> (r: Timestamp) {
    let t = chrono::UTC::now();
    Timestamp { secs: t.timestamp(), nanos: t.timestamp_subsec_nanos() }
}

} // verus!
