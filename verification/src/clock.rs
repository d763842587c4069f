//! The wall clock, as Unix epoch milliseconds.

use vstd::prelude::*;

verus! {

#[verifier::external_type_specification]
#[verifier::external_body]
pub struct ExSystemTime(std::time::SystemTime);

#[verifier::external_type_specification]
#[verifier::external_body]
pub struct ExSystemTimeError(std::time::SystemTimeError);

/// The current system time; nothing is known of its value.
pub assume_specification[ std::time::SystemTime::now ]() -> std::time::SystemTime;

/// The elapsed time since `earlier`, or an error when the clock reads
/// earlier than `earlier`; nothing is known of the value.
pub assume_specification[ std::time::SystemTime::duration_since ](
    t: &std::time::SystemTime,
    earlier: std::time::SystemTime,
) -> Result<core::time::Duration, std::time::SystemTimeError>;

/// The Unix epoch instant (`std::time::UNIX_EPOCH`); nothing is stated of it.
#[verifier::external_body]
fn unix_epoch() -> std::time::SystemTime {
    std::time::UNIX_EPOCH
}

/// The whole milliseconds of a duration; nothing is known of the value.
pub assume_specification[ core::time::Duration::as_millis ](d: &core::time::Duration) -> u128;

/// The current time as Unix epoch milliseconds (UTC), or 0 when the
/// clock reads before the epoch (the millisecond count truncated to 64 bits). Depends on the clock: nothing is
/// promised of the value.
pub fn now_ms() -> i64 {
    match std::time::SystemTime::now().duration_since(unix_epoch()) {
        Ok(d) => {
            let ms: u128 = d.as_millis();
            let truncated: i64 = ms as i64;
            truncated
        },
        Err(_) => 0,
    }
}

/// The whole seconds of a duration; nothing is known of the value.
pub assume_specification[ core::time::Duration::as_secs ](d: &core::time::Duration) -> u64;

/// The current time as Unix epoch seconds, or 0 when the clock reads
/// before the epoch. Depends on the clock: nothing is promised of the
/// value.
pub fn now_secs() -> u64 {
    match std::time::SystemTime::now().duration_since(unix_epoch()) {
        Ok(d) => d.as_secs(),
        Err(_) => 0,
    }
}

} // verus!
