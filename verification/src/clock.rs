//! The wall clock, as the one place where the library reads the time.

use vstd::prelude::*;

verus! {

/// Reads the current instant with `chrono::Utc::now` and hands it back as
/// `DateTime::timestamp_millis`: milliseconds since the Unix epoch.
///
/// Nothing is claimed of the value: two readings may differ in either
/// direction, since the system clock can be set back. `Utc::now` gives up
/// on a machine whose clock stands before 1970.
#[verifier::external_body]
pub(crate) fn now_millis() -> (now: i64) {
    chrono::Utc::now().timestamp_millis()
}

} // verus!
