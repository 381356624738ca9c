//! The clocks the library reads. What a clock returns depends on when it is read,
//! so the items here claim nothing of their results; the functions that read them
//! state what holds whatever came back.

use std::time::{Instant, SystemTime};
use vstd::prelude::*;

verus! {

/// A moment of the monotonic clock, carried through opaquely.
#[verifier::external_type_specification]
#[verifier::external_body]
pub struct ExInstant(std::time::Instant);

/// A moment of the wall clock, carried through opaquely.
#[verifier::external_type_specification]
#[verifier::external_body]
pub struct ExSystemTime(std::time::SystemTime);

/// Calls `std::time::Instant::now`. Nothing is claimed of the moment returned.
#[verifier::external_body]
pub(crate) fn instant_now() -> Instant {
    Instant::now()
}

/// Calls `Instant::elapsed` on `earlier` and gives the whole milliseconds of the
/// result (`Duration::as_millis`). Nothing is claimed of the value: it depends on
/// when the clock is read.
#[verifier::external_body]
pub(crate) fn millis_since(earlier: &Instant) -> u128 {
    earlier.elapsed().as_millis()
}

/// Calls `Instant::elapsed` on `earlier` and gives the whole nanoseconds of the
/// result (`Duration::as_nanos`). Nothing is claimed of the value.
#[verifier::external_body]
pub(crate) fn nanos_since(earlier: &Instant) -> u128 {
    earlier.elapsed().as_nanos()
}

/// Calls `Instant::elapsed` on `earlier` and gives the whole seconds of the
/// result (`Duration::as_secs`). Nothing is claimed of the value.
#[verifier::external_body]
pub(crate) fn secs_since(earlier: &Instant) -> u64 {
    earlier.elapsed().as_secs()
}

/// Calls `std::time::SystemTime::now`. Nothing is claimed of the moment returned.
#[verifier::external_body]
pub(crate) fn system_time_now() -> SystemTime {
    SystemTime::now()
}

/// Calls `SystemTime::duration_since(UNIX_EPOCH)` on `t` and gives the whole
/// seconds of the result, or 0 where `t` lies before the epoch (the error case of
/// `duration_since`, mapped as `unwrap_or_default` maps it). Nothing is claimed of
/// the value.
#[verifier::external_body]
pub(crate) fn unix_secs(t: &SystemTime) -> u64 {
    t.duration_since(std::time::UNIX_EPOCH).unwrap_or_default().as_secs()
}

/// Calls `SystemTime::duration_since(UNIX_EPOCH)` on `t` and gives the whole
/// nanoseconds of the result, or 0 where `t` lies before the epoch. Nothing is
/// claimed of the value.
#[verifier::external_body]
pub(crate) fn unix_nanos(t: &SystemTime) -> u128 {
    t.duration_since(std::time::UNIX_EPOCH).unwrap_or_default().as_nanos()
}

} // verus!
