//! The wall clock.

use vstd::prelude::*;

verus! {

/// `std::time::SystemTime::elapsed` of the Unix epoch: the time since the
/// epoch by the wall clock, in milliseconds; `None` where the clock stands
/// before the epoch. Nothing is promised of the value: two readings may
/// differ in any way, and time may run backwards.
#[verifier::external_body]
pub(crate) fn unix_millis() -> Option<u128> {
    match std::time::UNIX_EPOCH.elapsed() {
        Ok(since) => Some(since.as_millis()),
        Err(_) => None,
    }
}

/// The reading of the clock as a signed 64-bit number of milliseconds: the
/// low 64 bits of the reading, and 0 where the clock stands before the epoch.
pub open spec fn as_signed_millis(reading: Option<u128>) -> i64 {
    match reading {
        Some(ms) => ms as i64,
        None => 0,
    }
}

/// The clock's reading as a signed number of milliseconds.
pub fn signed_millis(reading: Option<u128>) -> (r: i64)
    ensures
        r == as_signed_millis(reading),
{
    match reading {
        Some(ms) => #[verifier::truncate] (ms as i64),
        None => 0,
    }
}

/// The reading of the clock as an unsigned 64-bit number of milliseconds: the
/// low 64 bits of the reading, and 0 where the clock stands before the epoch.
pub open spec fn as_unsigned_millis(reading: Option<u128>) -> u64 {
    match reading {
        Some(ms) => ms as u64,
        None => 0,
    }
}

/// The clock's reading as an unsigned number of milliseconds.
pub fn unsigned_millis(reading: Option<u128>) -> (r: u64)
    ensures
        r == as_unsigned_millis(reading),
{
    match reading {
        Some(ms) => #[verifier::truncate] (ms as u64),
        None => 0,
    }
}

/// The current time in milliseconds, as the sessions keep it.
pub fn now_millis() -> i64 {
    signed_millis(unix_millis())
}

} // verus!
