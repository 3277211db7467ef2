//! Instants on the UTC timeline, and the calendar arithmetic that the
//! `chrono` crate does for this library.

use vstd::prelude::*;
use crate::duration::Duration;

verus! {

/// The first second of the supported timeline: the start of the year -262143.
pub open spec fn min_timestamp() -> int {
    -8_334_601_228_800
}

/// The last second of the supported timeline: the end of the year 262142.
pub open spec fn max_timestamp() -> int {
    8_210_266_876_799
}

/// Is `seconds` after the Unix epoch a second of the supported timeline?
pub open spec fn is_timestamp(seconds: int) -> bool {
    min_timestamp() <= seconds <= max_timestamp()
}

/// Is `nanos` after the Unix epoch a point of the supported timeline?
pub open spec fn in_timeline(nanos: int) -> bool {
    min_timestamp() * 1_000_000_000 <= nanos < (max_timestamp() + 1) * 1_000_000_000
}

/// The Unix timestamp of a civil date and time of day in UTC, in the
/// proleptic Gregorian calendar; `None` where the fields name no date or no
/// time of day.
pub uninterp spec fn civil_seconds(
    year: i32,
    month: u32,
    day: u32,
    hour: u32,
    minute: u32,
    second: u32,
) -> Option<i64>;

/// Fields of which one lies outside the calendar whatever the others are:
/// a year before -262143 or after 262142, a month that is none of the
/// twelve, a day that is none of up to 31, an hour after 23, a minute or a
/// second after 59.
pub open spec fn out_of_calendar(
    year: int,
    month: int,
    day: int,
    hour: int,
    minute: int,
    second: int,
) -> bool {
    year < -262_143 || year > 262_142 || month < 1 || month > 12 || day < 1 || day > 31 || hour
        > 23 || minute > 59 || second > 59
}

/// Fields that name a date and a time of day in every year and every
/// month: those of a day up to the 28th.
pub open spec fn always_in_calendar(
    year: int,
    month: int,
    day: int,
    hour: int,
    minute: int,
    second: int,
) -> bool {
    -262_143 <= year <= 262_142 && 1 <= month <= 12 && 1 <= day <= 28 && 0 <= hour <= 23 && 0
        <= minute <= 59 && 0 <= second <= 59
}

/// Calls `chrono::DateTime::from_timestamp` and hands back the timestamp
/// and the nanoseconds of the instant it made.
///
/// Believed of it: with less than a second's worth of nanoseconds it
/// accepts exactly the seconds from the start of the year -262143 to the
/// end of the year 262142, and the instant it makes holds the very numbers
/// it was given.
#[verifier::external_body]
fn checked_timestamp(seconds: i64, nanos: u32) -> (r: Option<(i64, u32)>)
    requires
        nanos < 1_000_000_000,
    ensures
        r == (if is_timestamp(seconds as int) {
            Some((seconds, nanos))
        } else {
            None
        }),
{
    chrono::DateTime::from_timestamp(seconds, nanos).map(
        |t| (t.timestamp(), t.timestamp_subsec_nanos()),
    )
}

/// Calls `chrono::TimeZone::with_ymd_and_hms` on `chrono::Utc` and hands
/// back the timestamp of the instant it made.
///
/// Believed of it: the result depends on the six fields alone; there is
/// none where a field lies outside the calendar, and there is one for
/// every day up to the 28th of a month within the years that `chrono`
/// holds. What the timestamp is stays with `chrono`; this library only names
/// it.
#[verifier::external_body]
pub(crate) fn civil_timestamp(
    year: i32,
    month: u32,
    day: u32,
    hour: u32,
    minute: u32,
    second: u32,
) -> (r: Option<i64>)
    ensures
        r == civil_seconds(year, month, day, hour, minute, second),
        out_of_calendar(year as int, month as int, day as int, hour as int, minute as int, second as int)
            ==> r is None,
        always_in_calendar(
            year as int,
            month as int,
            day as int,
            hour as int,
            minute as int,
            second as int,
        ) ==> r is Some,
{
    chrono::TimeZone::with_ymd_and_hms(&chrono::Utc, year, month, day, hour, minute, second)
        .single().map(|t| t.timestamp())
}

/// Calls `chrono::Utc::now` and hands back the timestamp and the
/// nanoseconds of the current instant.
///
/// Believed of it: whatever the clock shows, the instant is one that
/// `chrono::DateTime::from_timestamp` made of the whole seconds and of the
/// fraction of a second since the Unix epoch, so its timestamp lies in the
/// supported timeline and its nanoseconds stay below a second. Which
/// instant it is, nothing is believed of. `chrono` stops the program where
/// the system clock stands before the Unix epoch or beyond the timeline.
#[verifier::external_body]
fn clock_reading() -> (r: (i64, u32))
    ensures
        is_timestamp(r.0 as int),
        r.1 < 1_000_000_000,
{
    let now = chrono::Utc::now();
    (now.timestamp(), now.timestamp_subsec_nanos())
}

/// A point on the UTC timeline, independent of any display timezone.
#[derive(Debug, Clone, Copy, PartialEq, Eq, Structural)]
pub struct UtcInstant {
    seconds: i64,
    nanos: u32,
}

impl View for UtcInstant {
    type V = int;

    /// Nanoseconds since the Unix epoch.
    closed spec fn view(&self) -> int {
        self.seconds * 1_000_000_000 + self.nanos
    }
}

impl UtcInstant {
    #[verifier::type_invariant]
    spec fn well_formed(self) -> bool {
        is_timestamp(self.seconds as int) && self.nanos < 1_000_000_000
    }

    /// The instant `nanos` nanoseconds after the second `seconds` of the
    /// Unix epoch, where that is a point of the supported timeline.
    pub fn from_timestamp(seconds: i64, nanos: u32) -> (r: Option<UtcInstant>)
        ensures
            match r {
                Some(instant) => instant@ == seconds * 1_000_000_000 + nanos && is_timestamp(
                    seconds as int,
                ) && nanos < 1_000_000_000,
                None => !is_timestamp(seconds as int) || nanos >= 1_000_000_000,
            },
    {
        if nanos >= 1_000_000_000 {
            return None;
        }
        match checked_timestamp(seconds, nanos) {
            Some((s, n)) => Some(UtcInstant { seconds: s, nanos: n }),
            None => None,
        }
    }

    /// The current instant as the system clock gives it. There always is
    /// one, and it is a point of the supported timeline. The clock must not
    /// stand before the Unix epoch.
    pub fn now() -> (r: Option<UtcInstant>)
        ensures
            r matches Some(instant) && in_timeline(instant@),
    {
        let (seconds, nanos) = clock_reading();
        UtcInstant::from_timestamp(seconds, nanos)
    }

    /// Whole seconds since the Unix epoch, rounded down.
    pub fn timestamp(&self) -> (r: i64)
        ensures
            r == self@ / 1_000_000_000,
            is_timestamp(r as int),
    {
        proof {
            use_type_invariant(self);
        }
        self.seconds
    }

    /// Nanoseconds since the last whole second.
    pub fn subsec_nanos(&self) -> (r: u32)
        ensures
            r == self@ % 1_000_000_000,
            in_timeline(self@),
    {
        proof {
            use_type_invariant(self);
        }
        self.nanos
    }

    /// The instant `nanos` nanoseconds after this one, where that is a
    /// point of the supported timeline.
    fn checked_add_nanos(&self, nanos: i128) -> (r: Option<UtcInstant>)
        requires
            -10_000_000_000_000_000_000_000_000_000 <= nanos
                <= 10_000_000_000_000_000_000_000_000_000,
        ensures
            match r {
                Some(instant) => instant@ == self@ + nanos && in_timeline(instant@),
                None => !in_timeline(self@ + nanos),
            },
    {
        proof {
            use_type_invariant(self);
        }
        let total: i128 = (self.seconds as i128) * 1_000_000_000 + (self.nanos as i128) + nanos;
        let seconds = match total.checked_div_euclid(1_000_000_000) {
            Some(q) => q,
            None => {
                return None;
            },
        };
        let rest = match total.checked_rem_euclid(1_000_000_000) {
            Some(r) => r,
            None => {
                return None;
            },
        };
        if seconds < -8_334_601_228_800 || seconds > 8_210_266_876_799 {
            return None;
        }
        UtcInstant::from_timestamp(seconds as i64, rest as u32)
    }

    /// The instant `seconds` seconds after this one, where that is a point
    /// of the supported timeline.
    pub fn checked_add_seconds(&self, seconds: i64) -> (r: Option<UtcInstant>)
        ensures
            match r {
                Some(instant) => instant@ == self@ + seconds * 1_000_000_000 && in_timeline(
                    instant@,
                ),
                None => !in_timeline(self@ + seconds * 1_000_000_000),
            },
    {
        self.checked_add_nanos((seconds as i128) * 1_000_000_000)
    }

    /// The instant that lies `duration` after this one, where that is a
    /// point of the supported timeline.
    pub fn checked_add(&self, duration: Duration) -> (r: Option<UtcInstant>)
        ensures
            match r {
                Some(instant) => instant@ == self@ + duration@ * 1_000_000 && in_timeline(
                    instant@,
                ),
                None => !in_timeline(self@ + duration@ * 1_000_000),
            },
    {
        self.checked_add_nanos((duration.num_milliseconds() as i128) * 1_000_000)
    }
}

} // verus!
