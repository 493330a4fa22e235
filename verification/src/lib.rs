//! Unix timestamps: seconds and nanoseconds since 1970-01-01T00:00:00Z.
//!
//! The central type is [`UtcTime`], a pair of a signed 64-bit whole-second
//! count and a sub-second nanosecond count below one billion. It can be
//! built directly, by normalizing an overlong nanosecond count, from a
//! [`core::time::Duration`], from the system clock, or by parsing a decimal
//! string, and it converts losslessly to total second, millisecond,
//! microsecond and nanosecond counts.

use vstd::prelude::*;

mod clock;
mod convert;
pub mod digits;
pub mod format;
pub mod laws;
pub mod parse;
mod subsec;

pub use clock::utcnow;
pub use clock::IMPLEMENTED;
pub use clock::INFALLIBLE;
pub use convert::MAX_SECS;
pub use subsec::U30;

verus! {

/// Nanoseconds in one second.
pub const NANOS_PER_SEC: u32 = 1_000_000_000;

/// The mathematical reading of a [`UtcTime`]: a whole-second count and a
/// sub-second nanosecond count, denoting `secs + nanos / 1_000_000_000`
/// seconds since 1970-01-01T00:00:00Z.
pub struct TimeView {
    pub secs: int,
    pub nanos: int,
}

/// A Unix time: seconds and nanoseconds since 1970-01-01T00:00:00Z.
///
/// The second count is signed, so instants before the epoch are negative.
/// The nanosecond count is kept below one billion by every constructor, and
/// its [`U30`] representation leaves a niche for `Option` and `Result`:
/// `Option<UtcTime>` is exactly as large as `UtcTime`.
#[derive(Clone, Copy, Debug, PartialEq, Eq, PartialOrd, Ord, Hash)]
pub struct UtcTime {
    /// Whole seconds since the epoch.
    secs: i64,
    /// Sub-second nanoseconds, always below `NANOS_PER_SEC`.
    nanos: U30,
}

impl View for UtcTime {
    type V = TimeView;

    closed spec fn view(&self) -> TimeView {
        TimeView { secs: self.secs as int, nanos: self.nanos@ }
    }
}

impl UtcTime {
    /// The domain invariant, stated over the view: the nanosecond count is
    /// below one billion. Every constructor establishes it.
    pub open spec fn valid(self) -> bool {
        0 <= self@.nanos < NANOS_PER_SEC
    }

    /// Build a timestamp from parts already in range, without normalization.
    ///
    /// The caller guarantees `nanos < NANOS_PER_SEC`.
    pub fn new_unchecked(secs: i64, nanos: u32) -> (r: Self)
        requires
            nanos < NANOS_PER_SEC,
        ensures
            r@ == (TimeView { secs: secs as int, nanos: nanos as int }),
    {
        UtcTime { secs, nanos: U30::new_unchecked(nanos) }
    }

    /// Build a timestamp, folding surplus nanoseconds into whole seconds.
    ///
    /// Returns `None` exactly when the carried seconds overflow the signed
    /// 64-bit range.
    pub fn new(secs: i64, nanos: u32) -> (r: Option<Self>)
        ensures
            r is Some <==> secs + nanos as int / (NANOS_PER_SEC as int) <= i64::MAX,
            r matches Some(t) ==> t@ == (TimeView {
                secs: secs + nanos as int / (NANOS_PER_SEC as int),
                nanos: nanos as int % (NANOS_PER_SEC as int),
            }),
    {
        if nanos < NANOS_PER_SEC {
            return Some(Self::new_unchecked(secs, nanos));
        }
        let extra: u32 = nanos / NANOS_PER_SEC;
        let rest: u32 = nanos % NANOS_PER_SEC;
        match secs.checked_add(extra as i64) {
            Some(total) => Some(Self::new_unchecked(total, rest)),
            None => None,
        }
    }

    /// Build a timestamp from arbitrary raw parts, the way generative
    /// testing hooks seed values: the nanosecond count is reduced modulo
    /// one billion, the second count is kept as given.
    pub fn from_raw_parts(secs: i64, nanos: u32) -> (r: Self)
        ensures
            r@ == (TimeView { secs: secs as int, nanos: nanos as int % (NANOS_PER_SEC as int) }),
    {
        Self::new_unchecked(secs, nanos % NANOS_PER_SEC)
    }

    /// The timestamp of the epoch itself, 1970-01-01T00:00:00Z.
    pub fn epoch() -> (r: Self)
        ensures
            r@ == (TimeView { secs: 0, nanos: 0 }),
    {
        UtcTime { secs: 0, nanos: U30::zero() }
    }

    /// Total whole seconds since the epoch.
    pub fn as_secs(self) -> (r: i64)
        ensures
            r == self@.secs,
    {
        self.secs
    }

    /// Total whole milliseconds since the epoch.
    pub fn as_millis(self) -> (r: i128)
        ensures
            r == self@.secs * 1_000 + self@.nanos / 1_000_000,
    {
        (self.secs as i128) * 1_000 + (self.nanos.get() as i128) / 1_000_000
    }

    /// Total whole microseconds since the epoch.
    pub fn as_micros(self) -> (r: i128)
        ensures
            r == self@.secs * 1_000_000 + self@.nanos / 1_000,
    {
        (self.secs as i128) * 1_000_000 + (self.nanos.get() as i128) / 1_000
    }

    /// Total whole nanoseconds since the epoch.
    pub fn as_nanos(self) -> (r: i128)
        ensures
            r == self@.secs * (NANOS_PER_SEC as int) + self@.nanos,
    {
        (self.secs as i128) * 1_000_000_000 + (self.nanos.get() as i128)
    }

    /// The sub-second part, in whole milliseconds; always below 1_000.
    pub fn subsec_millis(self) -> (r: u32)
        ensures
            r == self@.nanos / 1_000_000,
            r < 1_000,
    {
        self.nanos.get() / 1_000_000
    }

    /// The sub-second part, in whole microseconds; always below 1_000_000.
    pub fn subsec_micros(self) -> (r: u32)
        ensures
            r == self@.nanos / 1_000,
            r < 1_000_000,
    {
        self.nanos.get() / 1_000
    }

    /// The sub-second part, in nanoseconds; always below `NANOS_PER_SEC`.
    pub fn subsec_nanos(self) -> (r: u32)
        ensures
            r == self@.nanos,
            r < NANOS_PER_SEC,
    {
        self.nanos.get()
    }
}

impl Default for UtcTime {
    /// The epoch.
    fn default() -> (r: Self)
        ensures
            r@ == (TimeView { secs: 0, nanos: 0 }),
    {
        UtcTime::epoch()
    }
}

/// What decoding an encoded `(seconds, nanoseconds)` pair yields: the pair
/// itself when the nanosecond count is in range, nothing otherwise. Decoding
/// never normalizes an out-of-range count.
pub open spec fn spec_from_parts(secs: int, nanos: int) -> Option<TimeView> {
    if 0 <= nanos < NANOS_PER_SEC {
        Some(TimeView { secs, nanos })
    } else {
        None
    }
}

impl UtcTime {
    /// Encode as the ordered pair `(seconds, nanoseconds)`, the form any
    /// codec is expected to write. Decoding the pair gives the timestamp
    /// back unchanged.
    pub fn to_parts(self) -> (r: (i64, u32))
        ensures
            r.0 == self@.secs,
            r.1 == self@.nanos,
            spec_from_parts(r.0 as int, r.1 as int) == Some(self@),
    {
        (self.secs, self.nanos.get())
    }

    /// Decode an ordered `(seconds, nanoseconds)` pair, re-validating the
    /// nanosecond count. A count of one billion or more is an error, never
    /// silently normalized.
    pub fn from_parts(secs: i64, nanos: u32) -> (r: Result<Self, ConversionError>)
        ensures
            r is Ok <==> nanos < NANOS_PER_SEC,
            r matches Ok(t) ==> Some(t@) == spec_from_parts(secs as int, nanos as int),
    {
        if nanos < NANOS_PER_SEC {
            Ok(Self::new_unchecked(secs, nanos))
        } else {
            Err(ConversionError)
        }
    }
}

/// A value could not be converted from or to a [`UtcTime`]: a timestamp
/// before the epoch has no duration-since-epoch reading, a duration beyond
/// the signed 64-bit second range has no timestamp reading, and a malformed
/// string parses to nothing.
#[derive(Clone, Copy, Debug, PartialEq, Eq, PartialOrd, Ord, Hash)]
pub struct ConversionError;

impl ConversionError {
    /// A short description of the failure.
    pub fn message(&self) -> (r: &'static str)
        ensures
            r@ == "cannot convert from or to a UtcTime"@,
    {
        "cannot convert from or to a UtcTime"
    }
}

/// The system clock could not be queried.
#[derive(Clone, Copy, Debug, PartialEq, Eq, PartialOrd, Ord, Hash)]
pub struct Error;

impl Error {
    /// A short description of the failure.
    pub fn message(&self) -> (r: &'static str)
        ensures
            r@ == "could not query the system clock"@,
    {
        "could not query the system clock"
    }
}

} // verus!
