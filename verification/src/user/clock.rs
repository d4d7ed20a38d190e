//! The current time and date arithmetic, by the chrono crate, on Unix
//! timestamps (seconds since 1970-01-01 UTC).
use chrono::{DateTime, TimeDelta, Utc};
use vstd::prelude::*;

verus! {

/// The most hours a shift by [`checked_add_hours`] may span either way:
/// more would not fit chrono's `TimeDelta`.
pub const MAX_SHIFT_HOURS: i64 = 2562047788015;

/// The earliest Unix timestamp chrono represents: that of
/// `DateTime::<Utc>::MIN_UTC`, January 1 of 262144 BCE, 00:00:00.
pub const MIN_TIMESTAMP: i64 = -8334601228800;

/// The latest whole-second Unix timestamp chrono represents: that of
/// `DateTime::<Utc>::MAX_UTC`, December 31 of 262142 CE, 23:59:59.
pub const MAX_TIMESTAMP: i64 = 8210266876799;

/// Whether chrono represents the instant `ts` (a whole-second timestamp).
pub open spec fn representable(ts: int) -> bool {
    MIN_TIMESTAMP <= ts <= MAX_TIMESTAMP
}

/// The instant `hours` hours after `ts`, when chrono represents both.
pub open spec fn shift_hours(ts: int, hours: int) -> Option<int> {
    if representable(ts) && representable(ts + hours * 3600) {
        Some(ts + hours * 3600)
    } else {
        None
    }
}

/// Calls `chrono::Utc::now` and reads its timestamp. Claimed: only that it
/// lies between 1970 and the latest instant chrono represents (`Utc::now`
/// panics on a clock reading before 1970, and on one it cannot represent);
/// which reading it is depends on the clock.
#[verifier::external_body]
pub(crate) fn utc_now_timestamp() -> (r: i64)
    ensures
        0 <= r <= MAX_TIMESTAMP,
{
    Utc::now().timestamp()
}

/// Calls `DateTime::from_timestamp` on `ts`, `DateTime::checked_add_signed`
/// with a shift of `hours` hours, and reads the timestamp of the result.
/// Claimed: the instant exactly `hours` hours after `ts`, or `None` when chrono
/// does not represent `ts` or that instant (its documented "out of range").
#[verifier::external_body]
pub(crate) fn checked_add_hours(ts: i64, hours: i64) -> (r: Option<i64>)
    requires
        -MAX_SHIFT_HOURS <= hours <= MAX_SHIFT_HOURS,
    ensures
        match shift_hours(ts as int, hours as int) {
            Some(v) => r == Some(v as i64),
            None => r is None,
        },
{
    match DateTime::<Utc>::from_timestamp(ts, 0) {
        Some(t) => match t.checked_add_signed(TimeDelta::hours(hours)) {
            Some(shifted) => Some(shifted.timestamp()),
            None => None,
        },
        None => None,
    }
}

} // verus!
