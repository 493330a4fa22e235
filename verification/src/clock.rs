//! The system clock query behind [`utcnow`].

use vstd::prelude::*;

use crate::Error;
use crate::NANOS_PER_SEC;
use crate::UtcTime;

verus! {

/// `true` when reading the clock is implemented for the target platform.
pub const IMPLEMENTED: bool = true;

/// `true` when [`utcnow`] cannot fail.
pub const INFALLIBLE: bool = true;

/// Relies on rustix::time::clock_gettime with ClockId::Realtime: the call is
/// documented infallible for that clock and returns the current wall-clock
/// time, with a nanosecond field documented to be below one billion.
#[verifier::external_body]
fn clock_realtime_parts() -> (r: (i64, u32))
    ensures
        r.1 < NANOS_PER_SEC,
{
    let now = rustix::time::clock_gettime(rustix::time::ClockId::Realtime);
    (now.tv_sec, now.tv_nsec as u32)
}

/// The current Unix time, read from the system's real-time clock.
///
/// On this platform the query cannot fail, so the result is always `Ok`, and
/// the clock hands back a nanosecond count already below one billion.
pub fn utcnow() -> (r: Result<UtcTime, Error>)
    ensures
        r is Ok,
        r matches Ok(t) ==> 0 <= t@.nanos < NANOS_PER_SEC,
{
    let now = clock_realtime_parts();
    Ok(UtcTime::new_unchecked(now.0, now.1))
}

impl UtcTime {
    /// The current Unix time; the same as calling [`utcnow`].
    pub fn now() -> (r: Result<UtcTime, Error>)
        ensures
            r is Ok,
            r matches Ok(t) ==> 0 <= t@.nanos < NANOS_PER_SEC,
    {
        utcnow()
    }
}

} // verus!
