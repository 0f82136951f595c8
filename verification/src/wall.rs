//! The wall clock.
use vstd::prelude::*;

verus! {

/// The time since the start of 1970 by the machine's clock, in whole seconds and the nanoseconds
/// beyond them, or nothing if the clock stands before that. Calls `std::time::SystemTime::elapsed`
/// on the epoch. Of the result only this is claimed: the nanoseconds make up less than a second.
#[verifier::external_body]
fn since_epoch() -> (r: Option<(u64, u32)>)
    ensures
        r matches Some((secs, nanos)) ==> nanos < 1_000_000_000,
{
    match std::time::SystemTime::UNIX_EPOCH.elapsed() {
        Ok(elapsed) => Some((elapsed.as_secs(), elapsed.subsec_nanos())),
        Err(_) => None,
    }
}

/// A reading of the clock in milliseconds, cut to 64 bits; zero for a clock before the epoch.
pub open spec fn millis_of(reading: Option<(u64, u32)>) -> u64 {
    match reading {
        None => 0,
        Some((secs, nanos)) => ((secs * 1000 + nanos / 1_000_000) % 0x1_0000_0000_0000_0000) as u64,
    }
}

/// A reading of the clock in nanoseconds; zero for a clock before the epoch.
pub open spec fn nanos_of(reading: Option<(u64, u32)>) -> int {
    match reading {
        None => 0,
        Some((secs, nanos)) => secs * 1_000_000_000 + nanos,
    }
}

pub fn reading_millis(reading: Option<(u64, u32)>) -> (r: u64)
    ensures
        r == millis_of(reading),
{
    match reading {
        None => 0,
        Some((secs, nanos)) => {
            let millis: u128 = secs as u128 * 1000 + (nanos / 1_000_000) as u128;
            (millis % 0x1_0000_0000_0000_0000) as u64
        },
    }
}

pub fn reading_nanos(reading: Option<(u64, u32)>) -> (r: u128)
    ensures
        r == nanos_of(reading),
{
    match reading {
        None => 0,
        Some((secs, nanos)) => secs as u128 * 1_000_000_000 + nanos as u128,
    }
}

/// The time in milliseconds, for some reading of the clock.
pub fn now_timestamp_ms() -> (r: u64)
    ensures
        exists|reading: Option<(u64, u32)>|
            #![trigger millis_of(reading)]
            (reading matches Some((secs, nanos)) ==> nanos < 1_000_000_000) && r == millis_of(reading),
{
    let reading = since_epoch();
    reading_millis(reading)
}

/// A number for a session, taken from some reading of the clock.
pub fn unique_session_id() -> (r: u128)
    ensures
        exists|reading: Option<(u64, u32)>|
            #![trigger nanos_of(reading)]
            (reading matches Some((secs, nanos)) ==> nanos < 1_000_000_000) && r == nanos_of(reading),
{
    let reading = since_epoch();
    reading_nanos(reading)
}

/// A second is a thousand milliseconds and a thousand million nanoseconds; the milliseconds of a
/// reading are the whole ones that have passed.
pub proof fn law_clock_readings_agree(secs: u64, nanos: u32)
    requires
        nanos < 1_000_000_000,
        secs < 0x1_0000_0000_0000,
    ensures
        nanos_of(Some((0, nanos))) == nanos,
        nanos_of(Some(((secs + 1) as u64, nanos))) == nanos_of(Some((secs, nanos))) + 1_000_000_000,
        millis_of(Some(((secs + 1) as u64, nanos))) == millis_of(Some((secs, nanos))) + 1000,
        millis_of(Some((secs, nanos))) * 1_000_000 <= nanos_of(Some((secs, nanos))) < (millis_of(
            Some((secs, nanos)),
        ) + 1) * 1_000_000,
        millis_of(None) == 0,
        nanos_of(None) == 0,
{
}

} // verus!
