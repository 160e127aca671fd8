//! Wall-clock readings through `chrono`, and the range of instants that
//! `chrono::DateTime<Utc>` can hold.
use vstd::prelude::*;

verus! {

/// Unix timestamp, in seconds, of the earliest `DateTime<Utc>`
/// (January 1 of year -262143).
pub const UTC_MIN_TIMESTAMP: i64 = -8_334_601_228_800;

/// Unix timestamp, in seconds, of the latest `DateTime<Utc>`
/// (December 31 of year 262142, 23:59:59).
pub const UTC_MAX_TIMESTAMP: i64 = 8_210_266_876_799;

/// `chrono::Utc::now().timestamp()`. Every reading is an instant that a
/// `DateTime<Utc>` holds, so it lies within chrono's range; nothing else is
/// stated of it.
#[verifier::external_body]
fn utc_now_seconds() -> (now: i64)
    ensures
        UTC_MIN_TIMESTAMP <= now <= UTC_MAX_TIMESTAMP,
{
    chrono::Utc::now().timestamp()
}

/// The current time in whole seconds since the Unix epoch.
pub fn now_seconds() -> (now: i64)
    ensures
        UTC_MIN_TIMESTAMP <= now <= UTC_MAX_TIMESTAMP,
{
    utc_now_seconds()
}

} // verus!
