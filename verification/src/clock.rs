//! The wall clock, as std exposes it. Nothing is claimed of what the clock
//! reads: every function that consults it is verified for every reading.
use vstd::prelude::*;
use std::time::{SystemTime, SystemTimeError, UNIX_EPOCH};
use core::time::Duration;

verus! {

/// Declares `std::time::SystemTime` so that it can be carried through
/// verified code; its contents stay opaque.
#[verifier::external_type_specification]
#[verifier::external_body]
pub struct ExSystemTime(SystemTime);

/// Declares `std::time::SystemTimeError`, the error of
/// `SystemTime::duration_since` when the clock reads before the reference.
#[verifier::external_type_specification]
#[verifier::external_body]
pub struct ExSystemTimeError(SystemTimeError);

/// `SystemTime::now` reads the clock: nothing is promised of the reading.
pub assume_specification[ SystemTime::now ]() -> SystemTime;

/// Hands out `std::time::UNIX_EPOCH`, 1970-01-01 00:00:00 UTC. Nothing is
/// claimed of the value: it is only passed back to `duration_since`.
#[verifier::external_body]
pub(crate) fn unix_epoch() -> SystemTime {
    UNIX_EPOCH
}

/// `SystemTime::duration_since`: `Err` when `earlier` is later than the
/// receiver; nothing is claimed of which outcome comes or of the duration.
pub assume_specification[ SystemTime::duration_since ](this: &SystemTime, earlier: SystemTime) -> Result<Duration, SystemTimeError>;

/// The whole seconds a duration holds.
pub uninterp spec fn duration_secs(d: Duration) -> u64;

/// The whole milliseconds a duration holds.
pub uninterp spec fn duration_millis(d: Duration) -> u128;

/// `Duration::as_secs`: the whole seconds of the duration, named
/// `duration_secs`.
pub assume_specification[ Duration::as_secs ](d: &Duration) -> (r: u64)
    ensures
        r == duration_secs(*d),
;

/// `Duration::as_millis`: the whole milliseconds of the duration, named
/// `duration_millis`. Claimed too, as std documents both as whole counts of
/// the same duration: dropping the sub-second part of the milliseconds gives
/// the whole seconds.
pub assume_specification[ Duration::as_millis ](d: &Duration) -> (r: u128)
    ensures
        r == duration_millis(*d),
        r / 1000 == duration_secs(*d),
;

/// Whole seconds of the time elapsed since the epoch, or 0 when the clock
/// read before the epoch. The seconds count comes from `Duration::as_secs`.
pub fn secs_or_zero(elapsed: Result<Duration, SystemTimeError>) -> (s: u64)
    ensures
        elapsed matches Ok(d) ==> s == duration_secs(d),
        elapsed is Err ==> s == 0,
{
    match elapsed {
        Ok(d) => d.as_secs(),
        Err(_) => 0,
    }
}

/// Whole milliseconds of the time elapsed since the epoch, truncated to 64
/// bits, or `None` exactly when the clock read before the epoch. The count
/// comes from `Duration::as_millis`.
pub fn millis_or_none(elapsed: Result<Duration, SystemTimeError>) -> (ms: Option<u64>)
    ensures
        elapsed matches Ok(d) ==> ms == Some(duration_millis(d) as u64),
        elapsed is Err ==> ms is None,
{
    match elapsed {
        Ok(d) => Some(d.as_millis() as u64),
        Err(_) => None,
    }
}

} // verus!
