//! Capture timestamps.
use vstd::prelude::*;
use crate::text::radix_padded;

verus! {

/// A `struct timeval` as a capture library reports it.
#[derive(Debug, Clone, Copy, PartialEq, Eq)]
pub struct TimeVal {
    /// Whole seconds since the UNIX epoch.
    pub tv_sec: i64,
    /// Microseconds past `tv_sec`.
    pub tv_usec: i64,
}

/// The per-packet header that accompanies captured bytes.
#[derive(Debug, Clone, Copy, PartialEq, Eq)]
pub struct PacketHeader {
    /// Capture time.
    pub ts: TimeVal,
    /// Number of bytes captured.
    pub caplen: u32,
    /// Length of the packet on the wire.
    pub len: u32,
}

/// A UTC instant that chrono can represent, as non-leap seconds since the UNIX epoch and
/// nanoseconds past them.
#[derive(Debug, Clone, Copy, PartialEq, Eq)]
pub struct Timestamp {
    /// Non-leap seconds since January 1, 1970 0:00:00 UTC.
    secs: i64,
    /// Nanoseconds since the last whole non-leap second.
    nanos: u32,
}

/// The first second that a UTC timestamp can hold: January 1 of the year -262143, 0:00:00.
pub const MIN_UTC_SECS: i64 = -8_334_601_228_800;

/// The last second that a UTC timestamp can hold: December 31 of the year 262142, 23:59:59.
pub const MAX_UTC_SECS: i64 = 8_210_266_876_799;

/// Whether `chrono::DateTime::<Utc>::from_timestamp(secs, nsecs)` returns a value: the second
/// lies in chrono's date range, the nanosecond part is below two billion, and a part of a
/// billion or more (a leap second) comes only on a second that ends a minute.
pub open spec fn utc_timestamp_exists(secs: i64, nsecs: u32) -> bool {
    &&& MIN_UTC_SECS <= secs <= MAX_UTC_SECS
    &&& nsecs < 2_000_000_000
    &&& (nsecs >= 1_000_000_000 ==> secs % 60 == 59)
}

/// Calls `chrono::DateTime::from_timestamp(secs, nsecs)` and reports whether it returned `Some`.
/// The contract claims of that function that it succeeds exactly when the day lies between
/// chrono's `NaiveDate::MIN` and `NaiveDate::MAX` and the time of day is one that
/// `NaiveTime::from_num_seconds_from_midnight_opt` accepts (see `utc_timestamp_exists`).
#[verifier::external_body]
fn chrono_timestamp_exists(secs: i64, nsecs: u32) -> (ok: bool)
    ensures
        ok == utc_timestamp_exists(secs, nsecs),
{
    chrono::DateTime::from_timestamp(secs, nsecs).is_some()
}

/// The text that chrono's `Display` writes for `DateTime::<Utc>::from_timestamp(secs, nanos)`
/// (date, time with its fraction, and `UTC`).
pub uninterp spec fn utc_text(secs: i64, nanos: u32) -> Seq<char>;

/// Formats `chrono::DateTime::<Utc>::from_timestamp(secs, nanos)` with its `Display`.
/// The contract claims that the text depends on the two arguments alone, and names it
/// `utc_text`.
#[verifier::external_body]
fn chrono_utc_text(secs: i64, nanos: u32) -> (s: String)
    requires
        utc_timestamp_exists(secs, nanos),
    ensures
        s@ == utc_text(secs, nanos),
{
    match chrono::DateTime::from_timestamp(secs, nanos) {
        Some(t) => t.to_string(),
        None => String::new(),
    }
}

/// Two decimal digits, zero-padded.
pub open spec fn two_digits(n: int) -> Seq<char> {
    radix_padded(n as nat, 10, 2)
}

/// The time of day of `secs` seconds and `nanos` nanoseconds after the epoch, in UTC, as
/// chrono's format `%H:%M:%S%.6f` writes it: hours, minutes and seconds in two digits (a leap
/// second, `nanos` of a billion or more, counts as second 60), a point, and the microseconds
/// within the second in six digits.
pub open spec fn clock_text(secs: i64, nanos: u32) -> Seq<char> {
    let d = secs % 86400;
    two_digits(d / 3600) + ":"@ + two_digits((d % 3600) / 60) + ":"@ + two_digits(
        d % 60 + nanos / 1_000_000_000,
    ) + "."@ + radix_padded(((nanos / 1000) % 1_000_000) as nat, 10, 6)
}

/// Formats `chrono::DateTime::<Utc>::from_timestamp(secs, nanos)` with the format
/// `%H:%M:%S%.6f`. The contract claims that chrono writes `clock_text(secs, nanos)`: hours,
/// minutes and seconds of the UTC day in two digits each, a leap second as second 60, and the
/// microseconds in six digits after a point.
#[verifier::external_body]
fn chrono_clock_text(secs: i64, nanos: u32) -> (s: String)
    requires
        utc_timestamp_exists(secs, nanos),
    ensures
        s@ == clock_text(secs, nanos),
{
    match chrono::DateTime::from_timestamp(secs, nanos) {
        Some(t) => t.format("%H:%M:%S%.6f").to_string(),
        None => String::new(),
    }
}

impl View for Timestamp {
    type V = (i64, u32);

    /// Seconds and nanoseconds.
    closed spec fn view(&self) -> (i64, u32) {
        (self.secs, self.nanos)
    }
}

impl Timestamp {
    /// Every timestamp is an instant that chrono can represent.
    #[verifier::type_invariant]
    spec fn representable(self) -> bool {
        utc_timestamp_exists(self.secs, self.nanos)
    }

    /// The seconds and nanoseconds that a `timeval` denotes, if chrono can represent them.
    pub open spec fn spec_from_timeval(tv: TimeVal) -> Option<(i64, u32)> {
        let nanos = tv.tv_usec * 1000;
        if nanos < 0 || nanos > u32::MAX {
            None
        } else if !utc_timestamp_exists(tv.tv_sec, nanos as u32) {
            None
        } else {
            Some((tv.tv_sec, nanos as u32))
        }
    }

    /// Converts a `timeval` into a timestamp; `None` when the microseconds do not give a
    /// nanosecond count in `u32` or chrono cannot represent the instant.
    pub fn from_timeval(tv: &TimeVal) -> (r: Option<Timestamp>)
        requires
            i64::MIN <= tv.tv_usec * 1000 <= i64::MAX,
        ensures
            r matches Some(t) ==> Self::spec_from_timeval(*tv) == Some(t@),
            r is None <==> Self::spec_from_timeval(*tv) is None,
            (0 <= tv.tv_usec * 1000 < 1_000_000_000 && MIN_UTC_SECS <= tv.tv_sec <= MAX_UTC_SECS)
                ==> r is Some,
    {
        let nanos = tv.tv_usec * 1000;
        if nanos < 0 || nanos > u32::MAX as i64 {
            return None;
        }
        let nanos = nanos as u32;
        if !chrono_timestamp_exists(tv.tv_sec, nanos) {
            return None;
        }
        Some(Timestamp { secs: tv.tv_sec, nanos })
    }

    /// Whole non-leap seconds since the UNIX epoch.
    pub fn timestamp(&self) -> (s: i64)
        ensures
            s == self@.0,
    {
        self.secs
    }

    /// The sub-second part in microseconds.
    pub fn timestamp_subsec_micros(&self) -> (us: u32)
        ensures
            us == self@.1 / 1000,
    {
        self.nanos / 1000
    }

    /// The time of day of the instant, `HH:MM:SS.ffffff`.
    pub fn clock_text(&self) -> (s: String)
        ensures
            s@ == clock_text(self@.0, self@.1),
    {
        proof {
            use_type_invariant(self);
        }
        chrono_clock_text(self.secs, self.nanos)
    }

    /// The text of the instant, as chrono's `Display` writes it.
    pub fn to_text(&self) -> (s: String)
        ensures
            s@ == utc_text(self@.0, self@.1),
    {
        proof {
            use_type_invariant(self);
        }
        chrono_utc_text(self.secs, self.nanos)
    }
}

} // verus!
