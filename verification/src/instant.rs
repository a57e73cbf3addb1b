//! Points in time, as nanoseconds since the Unix epoch in UTC.

use time::OffsetDateTime;
use vstd::prelude::*;

verus! {

pub const NANOS_PER_SECOND: i128 = 1_000_000_000;

pub const NANOS_PER_HOUR: i128 = 3_600_000_000_000;

pub const HOURS_PER_DAY: u8 = 24;

/// The first representable instant: midnight at the start of year -9999.
pub const MIN_UNIX_NANOS: i128 = -377_705_116_800_000_000_000;

/// The last representable instant: the final nanosecond of year 9999.
pub const MAX_UNIX_NANOS: i128 = 253_402_300_799_999_999_999;

/// Whether `nanos` lies within the representable span of instants.
pub open spec fn representable(nanos: int) -> bool {
    MIN_UNIX_NANOS <= nanos <= MAX_UNIX_NANOS
}

/// Whole seconds from the epoch to `nanos`, rounded toward the past.
pub open spec fn unix_seconds_of(nanos: int) -> int {
    nanos / (NANOS_PER_SECOND as int)
}

/// The wall-clock hour of the UTC day that `nanos` falls in, from 0 to 23.
pub open spec fn hour_of(nanos: int) -> int {
    (nanos / (NANOS_PER_HOUR as int)) % 24
}

/// Complete hours from `earlier` to `later`, rounded toward zero; negative
/// when `later` lies before `earlier`.
pub open spec fn whole_hours_between(later: int, earlier: int) -> int {
    if later >= earlier {
        (later - earlier) / (NANOS_PER_HOUR as int)
    } else {
        -((earlier - later) / (NANOS_PER_HOUR as int))
    }
}

/// The later of two instants.
pub open spec fn later_of(a: int, b: int) -> int {
    if a >= b {
        a
    } else {
        b
    }
}

/// Whether `nanos` lies in the first second after the epoch, which stands
/// for "no time given".
pub open spec fn is_unset(nanos: int) -> bool {
    unix_seconds_of(nanos) == 0
}

/// Reads the system clock through `OffsetDateTime::now_utc` and returns the
/// reading as `unix_timestamp_nanos` gives it. Claimed: the reading is a
/// valid date-time, so it lies within the representable span. Nothing else
/// is known of it.
#[verifier::external_body]
fn now_unix_nanos() -> (nanos: i128)
    ensures
        representable(nanos as int),
{
    OffsetDateTime::now_utc().unix_timestamp_nanos()
}

/// Builds the UTC date-time at `nanos` with
/// `OffsetDateTime::from_unix_timestamp_nanos` and asks it for `hour`.
/// Claimed: the hour of day is the count of whole hours since the epoch,
/// reduced modulo 24.
#[verifier::external_body]
fn hour_of_day(nanos: i128) -> (hour: u8)
    requires
        representable(nanos as int),
    ensures
        hour as int == hour_of(nanos as int),
{
    OffsetDateTime::from_unix_timestamp_nanos(nanos).expect("instant within range").hour()
}

/// Builds the UTC date-time at `nanos` with
/// `OffsetDateTime::from_unix_timestamp_nanos` and asks it for
/// `unix_timestamp`. Claimed: the result is the count of whole seconds since
/// the epoch, rounded toward the past.
#[verifier::external_body]
fn unix_seconds(nanos: i128) -> (seconds: i64)
    requires
        representable(nanos as int),
    ensures
        seconds as int == unix_seconds_of(nanos as int),
{
    OffsetDateTime::from_unix_timestamp_nanos(nanos).expect("instant within range").unix_timestamp()
}

/// Builds both UTC date-times with
/// `OffsetDateTime::from_unix_timestamp_nanos`, subtracts the earlier from
/// the later and asks the difference for `whole_hours`. Claimed: the result
/// is the signed difference in hours, rounded toward zero.
#[verifier::external_body]
fn elapsed_whole_hours(later: i128, earlier: i128) -> (hours: i64)
    requires
        representable(later as int),
        representable(earlier as int),
    ensures
        hours as int == whole_hours_between(later as int, earlier as int),
{
    let end = OffsetDateTime::from_unix_timestamp_nanos(later).expect("instant within range");
    let start = OffsetDateTime::from_unix_timestamp_nanos(earlier).expect("instant within range");
    (end - start).whole_hours()
}

/// An instant in UTC with nanosecond precision, between the years -9999 and
/// 9999.
#[derive(Clone, Copy, Debug, PartialEq, Eq)]
pub struct UtcInstant {
    nanos: i128,
}

impl View for UtcInstant {
    type V = int;

    /// Nanoseconds since the Unix epoch.
    closed spec fn view(&self) -> int {
        self.nanos as int
    }
}

impl UtcInstant {
    /// Every instant lies within the representable span.
    #[verifier::type_invariant]
    pub open spec fn in_range(self) -> bool {
        representable(self@)
    }

    /// The instant `nanos` nanoseconds after the epoch, or `None` where that
    /// lies outside the representable span.
    pub fn from_unix_nanos(nanos: i128) -> (instant: Option<UtcInstant>)
        ensures
            instant.is_some() == representable(nanos as int),
            instant matches Some(t) ==> t@ == nanos,
    {
        if MIN_UNIX_NANOS <= nanos && nanos <= MAX_UNIX_NANOS {
            Some(UtcInstant { nanos })
        } else {
            None
        }
    }

    /// The current reading of the system clock.
    pub fn now() -> (instant: UtcInstant)
        ensures
            representable(instant@),
    {
        UtcInstant { nanos: now_unix_nanos() }
    }

    /// Nanoseconds since the epoch.
    pub fn unix_nanos(&self) -> (nanos: i128)
        ensures
            nanos == self@,
            representable(self@),
    {
        proof {
            use_type_invariant(self);
        }
        self.nanos
    }

    /// Whole seconds since the epoch.
    pub fn unix_timestamp(&self) -> (seconds: i64)
        ensures
            seconds == unix_seconds_of(self@),
    {
        proof {
            use_type_invariant(self);
        }
        unix_seconds(self.nanos)
    }

    /// The wall-clock hour of the UTC day, from 0 to 23.
    pub fn hour(&self) -> (hour: u8)
        ensures
            hour == hour_of(self@),
            hour < HOURS_PER_DAY,
    {
        proof {
            use_type_invariant(self);
        }
        hour_of_day(self.nanos)
    }

    /// Complete hours elapsed from `earlier` to `self`, rounded toward zero.
    pub fn whole_hours_since(&self, earlier: &UtcInstant) -> (hours: i64)
        ensures
            hours == whole_hours_between(self@, earlier@),
    {
        proof {
            use_type_invariant(self);
            use_type_invariant(earlier);
        }
        elapsed_whole_hours(self.nanos, earlier.nanos)
    }
}

} // verus!
