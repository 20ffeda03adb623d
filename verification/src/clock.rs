//! The one place the relay reads the wall clock.

use vstd::prelude::*;

verus! {

/// Relies on `time::OffsetDateTime`: `now_utc` reads the system clock
/// and `unix_timestamp` turns it into whole seconds since the Unix
/// epoch. Nothing is promised of the value: callers must be correct
/// whatever the clock says.
#[verifier::external_body]
pub(crate) fn now_unix() -> i64 {
    time::OffsetDateTime::now_utc().unix_timestamp()
}

} // verus!
