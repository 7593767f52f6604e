//! Reading the clocks of the host.

use vstd::prelude::*;

verus! {

#[verifier::external_type_specification]
#[verifier::external_body]
pub struct ExInstant(std::time::Instant);

/// `Instant::now`: a reading of the monotonic clock.
#[verifier::external_body]
pub(crate) fn instant_now() -> std::time::Instant {
    std::time::Instant::now()
}

/// `Instant::elapsed` in whole milliseconds. It rests on the clock alone.
#[verifier::external_body]
pub(crate) fn elapsed_millis(started: &std::time::Instant) -> u128 {
    started.elapsed().as_millis()
}

#[verifier::external_type_specification]
#[verifier::external_body]
pub struct ExSystemTime(std::time::SystemTime);

/// `SystemTime::now`: a reading of the system clock.
#[verifier::external_body]
fn system_now() -> std::time::SystemTime {
    std::time::SystemTime::now()
}

/// `SystemTime::duration_since` the Unix epoch in whole milliseconds; `None` for a time before it.
#[verifier::external_body]
fn millis_since_epoch(now: &std::time::SystemTime) -> Option<u128> {
    now.duration_since(std::time::UNIX_EPOCH).ok().map(|passed| passed.as_millis())
}

/// A count of milliseconds, cut to 64 bits.
pub open spec fn clamped(millis: nat) -> nat {
    if millis <= u64::MAX {
        millis
    } else {
        u64::MAX as nat
    }
}

pub fn clamp_millis(millis: u128) -> (kept: u64)
    ensures
        kept == clamped(millis as nat),
{
    if millis <= u64::MAX as u128 {
        millis as u64
    } else {
        u64::MAX
    }
}

/// The system time in milliseconds since the Unix epoch, zero for a clock that is set before it.
/// Nothing is said of its value.
pub fn unix_time_ms() -> u64 {
    let now = system_now();
    unix_millis(millis_since_epoch(&now))
}

/// A reading of the system clock in milliseconds since the Unix epoch, cut to 64 bits; zero where
/// the clock is set before it.
pub fn unix_millis(passed: Option<u128>) -> (millis: u64)
    ensures
        millis == match passed {
            Some(passed) => clamped(passed as nat),
            None => 0,
        },
{
    match passed {
        Some(passed) => clamp_millis(passed),
        None => 0,
    }
}

} // verus!
