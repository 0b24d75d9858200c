//! What the queue takes from the world around it: the time, and job numbers by chance.

use vstd::prelude::*;

verus! {

/// `std::time::SystemTime`, a reading of the system clock.
#[verifier::external_type_specification]
#[verifier::external_body]
pub struct ExSystemTime(std::time::SystemTime);

/// `std::time::SystemTimeError`, which says that a reading is the earlier one.
#[verifier::external_type_specification]
#[verifier::external_body]
pub struct ExSystemTimeError(std::time::SystemTimeError);

/// `SystemTime::now` reads the system clock. Nothing is promised of the reading.
pub assume_specification[ std::time::SystemTime::now ]() -> (now: std::time::SystemTime)
;

/// The time from 1970-01-01 00:00:00 UTC to `time`, by `SystemTime::duration_since`; an
/// error where `time` is earlier. Nothing is promised of it, as nothing is of the clock.
#[verifier::external_body]
fn since_epoch(time: &std::time::SystemTime) -> Result<
    std::time::Duration,
    std::time::SystemTimeError,
> {
    time.duration_since(std::time::SystemTime::UNIX_EPOCH)
}

/// `Duration::as_millis` counts the whole milliseconds of a length of time. Nothing is
/// promised of the count, as nothing is of the clock.
pub assume_specification[ std::time::Duration::as_millis ](time: &std::time::Duration) -> (millis:
    u128)
;

/// A number by chance, by `fastrand::u32` on the whole range. Any number can come.
#[verifier::external_body]
pub(crate) fn random_job_id() -> u32 {
    fastrand::u32(..)
}

/// The timestamp of a clock reading: the low 64 bits of the milliseconds since
/// 1970-01-01 00:00:00 UTC, or zero where the clock stands before that.
pub fn timestamp_of(since_epoch_millis: Option<u128>) -> (timestamp: u64)
    ensures
        match since_epoch_millis {
            Some(millis) => timestamp == millis % 0x1_0000_0000_0000_0000,
            None => timestamp == 0,
        },
{
    match since_epoch_millis {
        Some(millis) => {
            assert(millis as u64 == millis % 0x1_0000_0000_0000_0000) by (bit_vector);
            #[verifier::truncate]
            (millis as u64)
        },
        None => 0,
    }
}

/// The current time in milliseconds since 1970-01-01 00:00:00 UTC, or zero where the clock
/// stands before that.
pub(crate) fn current_timestamp() -> u64 {
    match since_epoch(&std::time::SystemTime::now()) {
        Ok(time) => timestamp_of(Some(time.as_millis())),
        Err(_) => timestamp_of(None),
    }
}

} // verus!
