//! The wall clock, in milliseconds since 1970-01-01 00:00:00 UTC.

use std::time::Duration;
use std::time::SystemTime;
use std::time::SystemTimeError;
use vstd::prelude::*;

verus! {

/// `std::time::SystemTime`: a reading of the system clock. Nothing is known
/// of its value.
#[verifier::external_type_specification]
#[verifier::external_body]
pub struct ExSystemTime(SystemTime);

/// `std::time::SystemTimeError`: the answer of `duration_since` when the
/// second reading is later than the first.
#[verifier::external_type_specification]
#[verifier::external_body]
pub struct ExSystemTimeError(SystemTimeError);

/// `SystemTime::now` reads the clock. Two readings may differ in any way, so
/// nothing is promised of the result.
pub assume_specification[ SystemTime::now ]() -> SystemTime
;

/// `SystemTime::duration_since` gives the time from `earlier` to `time`, or an
/// error when `earlier` is the later one. It does not panic.
pub assume_specification[ SystemTime::duration_since ](
    time: &SystemTime,
    earlier: SystemTime,
) -> Result<Duration, SystemTimeError>
;

/// `Duration::as_millis` gives the whole milliseconds of a duration.
pub assume_specification[ Duration::as_millis ](duration: &Duration) -> u128
;

/// `std::time::UNIX_EPOCH`: the reading that stands for 1970-01-01 00:00:00 UTC.
#[verifier::external_body]
fn unix_epoch() -> SystemTime {
    std::time::UNIX_EPOCH
}

/// Milliseconds since the epoch, or 0 when the clock stands before it.
pub fn cur_time_ms_u128() -> u128 {
    let now = SystemTime::now();
    millis_or_zero(match now.duration_since(unix_epoch()) {
        Ok(elapsed) => Some(elapsed.as_millis()),
        Err(_) => None,
    })
}

/// The low 64 bits of a count of milliseconds.
pub open spec fn low_64_bits(ms: u128) -> u64 {
    (ms % 0x1_0000_0000_0000_0000) as u64
}

/// Cuts a count of milliseconds down to 64 bits.
pub fn millis_to_u64(ms: u128) -> (low: u64)
    ensures
        low == low_64_bits(ms),
        ms <= u64::MAX ==> low == ms,
{
    (ms % 0x1_0000_0000_0000_0000) as u64
}

/// Milliseconds since the epoch in 64 bits, or 0 when the clock stands before it.
pub fn time_ms_u64() -> u64 {
    millis_to_u64(cur_time_ms_u128())
}

/// The count of milliseconds for what the clock said of the time since the
/// epoch: the milliseconds it gave, and 0 where it stands before the epoch
/// and gave none.
pub fn millis_or_zero(elapsed: Option<u128>) -> (ms: u128)
    ensures
        ms == match elapsed {
            Some(millis) => millis,
            None => 0,
        },
{
    match elapsed {
        Some(millis) => millis,
        None => 0,
    }
}

} // verus!
