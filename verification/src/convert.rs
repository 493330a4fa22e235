//! Conversions between [`UtcTime`] and the standard library's duration and
//! wall-clock types.
//!
//! A `Duration` or `SystemTime` is opaque here, so each conversion is split
//! in two: a verified function on plain `(seconds, nanoseconds)` parts that
//! carries the arithmetic, and a caller that moves the parts into or out of
//! the standard type through the trusted items below. Their results are
//! deterministic functions of the arguments, so each is given a name, and
//! the callers' contracts are exact over those names.

use vstd::prelude::*;

use core::time::Duration;
use std::time::SystemTime;

use crate::ConversionError;
use crate::NANOS_PER_SEC;
use crate::TimeView;
use crate::UtcTime;

verus! {

/// The largest unsigned second count that still fits a signed 64-bit integer.
pub const MAX_SECS: u64 = 9_223_372_036_854_775_807;

/// The duration that `Duration::new` builds from `secs` whole seconds and
/// `nanos < 1_000_000_000` sub-second nanoseconds.
pub uninterp spec fn spec_duration(secs: u64, nanos: u32) -> Duration;

/// What `SystemTime::duration_since(UNIX_EPOCH)` yields for a wall-clock
/// value: the elapsed time since the epoch, or nothing for a value before
/// the epoch.
pub uninterp spec fn spec_elapsed_since_epoch(t: SystemTime) -> Option<Duration>;

/// What `SystemTime::checked_add` yields on `UNIX_EPOCH`: the epoch moved
/// forward by the duration, or nothing where the platform's clock type
/// cannot represent the sum.
pub uninterp spec fn spec_epoch_plus(d: Duration) -> Option<SystemTime>;

/// Relies on core::time::Duration::new: builds the duration of `secs`
/// seconds and `nanos` nanoseconds. With `nanos` below one second no carry
/// occurs, so the call cannot overflow and panic, and the result is a
/// function of the two arguments alone, named [`spec_duration`].
pub assume_specification [ Duration::new ](secs: u64, nanos: u32) -> (r: Duration)
    requires
        nanos < NANOS_PER_SEC,
    ensures
        r == spec_duration(secs, nanos),
;

/// Relies on core::time::Duration::as_secs: the whole-second part, which
/// for a duration built from in-range parts is the second part itself.
pub assume_specification [ Duration::as_secs ](d: &Duration) -> (r: u64)
    ensures
        forall|s: u64, n: u32| n < NANOS_PER_SEC && *d == spec_duration(s, n) ==> r == s,
;

/// Relies on core::time::Duration::subsec_nanos: the fractional part in
/// nanoseconds, documented to be less than one billion; for a duration
/// built from in-range parts it is the nanosecond part itself.
pub assume_specification [ Duration::subsec_nanos ](d: &Duration) -> (r: u32)
    ensures
        r < NANOS_PER_SEC,
        forall|s: u64, n: u32| n < NANOS_PER_SEC && *d == spec_duration(s, n) ==> r == n,
;

#[verifier::external_type_specification]
#[verifier::external_body]
pub struct ExSystemTime(SystemTime);

/// Relies on std::time::SystemTime::duration_since, measured against
/// UNIX_EPOCH: `Some` holds the elapsed time since the epoch, `None` means
/// the clock value lies before the epoch. The result depends on the clock
/// value alone and is named [`spec_elapsed_since_epoch`].
#[verifier::external_body]
fn system_time_since_epoch(value: &SystemTime) -> (r: Option<Duration>)
    ensures
        r == spec_elapsed_since_epoch(*value),
{
    value.duration_since(SystemTime::UNIX_EPOCH).ok()
}

/// Relies on std::time::SystemTime::checked_add applied to UNIX_EPOCH:
/// `Some` is the epoch moved forward by `d`, `None` means the sum cannot be
/// represented by the platform's clock type. The result depends on `d`
/// alone and is named [`spec_epoch_plus`].
#[verifier::external_body]
fn epoch_checked_add(d: Duration) -> (r: Option<SystemTime>)
    ensures
        r == spec_epoch_plus(d),
{
    SystemTime::UNIX_EPOCH.checked_add(d)
}

impl UtcTime {
    /// The duration-since-epoch reading as plain parts. An instant before
    /// the epoch has none, and that is the only failure.
    pub fn into_duration_parts(self) -> (r: Result<(u64, u32), ConversionError>)
        ensures
            r is Err <==> self@.secs < 0,
            r matches Ok(p) ==> p.0 == self@.secs && p.1 == self@.nanos && p.1 < NANOS_PER_SEC,
    {
        if self.secs < 0 {
            Err(ConversionError)
        } else {
            Ok((self.secs as u64, self.subsec_nanos()))
        }
    }

    /// Convert to a duration since the epoch. Fails exactly for instants
    /// before the epoch, which a duration cannot represent; otherwise the
    /// result is the duration of the timestamp's own parts.
    pub fn into_duration(self) -> (r: Result<Duration, ConversionError>)
        ensures
            r is Err <==> self@.secs < 0,
            r matches Ok(d) ==> d == spec_duration(self@.secs as u64, self@.nanos as u32),
    {
        match self.into_duration_parts() {
            Ok(p) => Ok(Duration::new(p.0, p.1)),
            Err(e) => Err(e),
        }
    }

    /// Read a duration since the epoch out of plain parts. Fails exactly
    /// when the second count overflows the signed 64-bit range; the
    /// nanosecond part is already in range by the duration's own invariant.
    pub fn from_duration_parts(secs: u64, nanos: u32) -> (r: Option<Self>)
        requires
            nanos < NANOS_PER_SEC,
        ensures
            r is Some <==> secs <= MAX_SECS,
            r matches Some(t) ==> t@ == (TimeView { secs: secs as int, nanos: nanos as int }),
    {
        if secs <= MAX_SECS {
            Some(Self::new_unchecked(secs as i64, nanos))
        } else {
            None
        }
    }

    /// Convert a duration since the epoch. For the duration of any in-range
    /// parts, the conversion succeeds exactly when the whole seconds fit
    /// the signed 64-bit range, and then carries those very parts.
    pub fn from_duration(value: Duration) -> (r: Option<Self>)
        ensures
            r matches Some(t) ==> t@.secs >= 0 && 0 <= t@.nanos < NANOS_PER_SEC,
            forall|s: u64, n: u32|
                n < NANOS_PER_SEC && value == spec_duration(s, n) ==> ((r is Some <==> s
                    <= MAX_SECS) && (r matches Some(t) ==> t@.secs == s && t@.nanos == n)),
    {
        let secs = value.as_secs();
        let nanos = value.subsec_nanos();
        Self::from_duration_parts(secs, nanos)
    }

    /// Convert a wall-clock time: the timestamp of the time elapsed since
    /// the epoch. A clock value before the epoch fails; one whose elapsed
    /// whole seconds exceed the signed 64-bit range fails as well.
    pub fn from_system_time(value: SystemTime) -> (r: Option<Self>)
        ensures
            r matches Some(t) ==> t@.secs >= 0 && 0 <= t@.nanos < NANOS_PER_SEC,
            spec_elapsed_since_epoch(value) is None ==> r is None,
            forall|s: u64, n: u32|
                n < NANOS_PER_SEC && spec_elapsed_since_epoch(value) == Some(
                    spec_duration(s, n),
                ) ==> ((r is Some <==> s <= MAX_SECS) && (r matches Some(t) ==> t@.secs == s
                    && t@.nanos == n)),
    {
        match system_time_since_epoch(&value) {
            Some(d) => Self::from_duration(d),
            None => None,
        }
    }

    /// Convert to a wall-clock time: the epoch moved forward by this
    /// timestamp. An instant before the epoch always fails; a non-negative
    /// one succeeds exactly where the platform's clock type can hold the
    /// sum, and then yields that very instant.
    pub fn into_system_time(self) -> (r: Result<SystemTime, ConversionError>)
        ensures
            self@.secs < 0 ==> r is Err,
            r matches Ok(st) ==> Some(st) == spec_epoch_plus(
                spec_duration(self@.secs as u64, self@.nanos as u32),
            ),
            self@.secs >= 0 && spec_epoch_plus(
                spec_duration(self@.secs as u64, self@.nanos as u32),
            ) is Some ==> r is Ok,
    {
        let d = match self.into_duration() {
            Ok(d) => d,
            Err(e) => {
                return Err(e);
            },
        };
        match epoch_checked_add(d) {
            Some(t) => Ok(t),
            None => Err(ConversionError),
        }
    }
}

} // verus!
