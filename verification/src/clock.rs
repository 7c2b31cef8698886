//! The wall clock, read in whole seconds since the epoch.

use vstd::prelude::*;

verus! {

/// Calls `chrono::Utc::now().timestamp()`. Nothing is claimed of the reading.
#[verifier::external_body]
fn utc_timestamp() -> i64 {
    chrono::Utc::now().timestamp()
}

/// Calls `chrono::Utc::now().timestamp_micros()`. Nothing is claimed of the
/// reading.
#[verifier::external_body]
pub(crate) fn utc_timestamp_micros() -> i64 {
    chrono::Utc::now().timestamp_micros()
}

/// A clock reading as the library counts time: a reading before the epoch
/// counts as the epoch itself, and one beyond the machine word as the
/// largest time the word holds.
pub open spec fn clamped(reading: int) -> nat {
    if reading < 0 {
        0
    } else if reading > usize::MAX {
        usize::MAX as nat
    } else {
        reading as nat
    }
}

/// A time that the clock can show: the clamp of some reading.
pub open spec fn clock_time(now: nat) -> bool {
    exists|reading: int| i64::MIN <= reading <= i64::MAX && now == #[trigger] clamped(reading)
}

/// Turns a raw clock reading into seconds since the epoch.
pub fn seconds_since_epoch(reading: i64) -> (now: usize)
    ensures
        now as nat == clamped(reading as int),
{
    if reading < 0 {
        0
    } else if reading as u64 > usize::MAX as u64 {
        usize::MAX
    } else {
        reading as usize
    }
}

/// The current time in seconds since the epoch: the clamp of what the clock showed.
pub(crate) fn current_time() -> (now: usize)
    ensures
        clock_time(now as nat),
{
    let reading = utc_timestamp();
    let now = seconds_since_epoch(reading);
    assert(now as nat == clamped(reading as int));
    now
}

} // verus!
