use vstd::prelude::*;

use chrono::{DateTime, TimeDelta, TimeZone, Utc};

verus! {

/// A point in time as seconds and nanoseconds since the Unix epoch (UTC).
#[derive(Clone, Copy, Debug, PartialEq, Eq, Structural)]
pub struct Timestamp {
    pub seconds: i64,
    pub nanos: i32,
}

/// Seconds in one day.
pub open spec fn seconds_per_day() -> int {
    86400
}

/// The earliest year of the calendar that chrono represents.
pub open spec fn min_year() -> int {
    -262143
}

/// The latest year of the calendar that chrono represents.
pub open spec fn max_year() -> int {
    262142
}

/// Unix seconds of chrono's earliest UTC instant, -262143-01-01 00:00:00.
pub open spec fn utc_min_seconds() -> int {
    -8334601228800
}

/// Unix seconds of chrono's latest UTC instant, 262142-12-31 23:59:59.
pub open spec fn utc_max_seconds() -> int {
    8210266876799
}

/// Whether a Unix second lies in the range of instants that chrono represents.
pub open spec fn utc_in_range(seconds: int) -> bool {
    utc_min_seconds() <= seconds <= utc_max_seconds()
}

/// Whether a whole number of days is a span that chrono's `TimeDelta` holds
/// (at most `i64::MAX` milliseconds either way).
pub open spec fn days_span_in_range(days: int) -> bool {
    -9223372036854775 <= days * seconds_per_day() <= 9223372036854775
}

/// Leap years of the proleptic Gregorian calendar.
pub open spec fn is_leap_year(year: int) -> bool {
    year % 4 == 0 && (year % 100 != 0 || year % 400 == 0)
}

/// Number of days of a month (1 to 12) of the proleptic Gregorian calendar.
pub open spec fn days_in_month(year: int, month: int) -> int {
    if month == 2 {
        if is_leap_year(year) { 29 } else { 28 }
    } else if month == 4 || month == 6 || month == 9 || month == 11 {
        30
    } else {
        31
    }
}

/// Whether a calendar date and time of day exist, within chrono's years.
pub open spec fn valid_civil(year: int, month: int, day: int, hour: int, minute: int, second: int) -> bool {
    &&& min_year() <= year <= max_year()
    &&& 1 <= month <= 12
    &&& 1 <= day <= days_in_month(year, month)
    &&& 0 <= hour < 24
    &&& 0 <= minute < 60
    &&& 0 <= second < 60
}

/// Days from 1970-01-01 to a date of the proleptic Gregorian calendar.
pub open spec fn days_from_civil(year: int, month: int, day: int) -> int {
    let y: int = if month <= 2 { year - 1 } else { year };
    let era: int = y / 400;
    let year_of_era: int = y - era * 400;
    let shifted_month: int = (month + 9) % 12;
    let day_of_year: int = (153 * shifted_month + 2) / 5 + day - 1;
    let day_of_era: int = year_of_era * 365 + year_of_era / 4 - year_of_era / 100 + day_of_year;
    era * 146097 + day_of_era - 719468
}

/// Unix seconds of a UTC calendar date and time of day.
pub open spec fn civil_seconds(year: int, month: int, day: int, hour: int, minute: int, second: int) -> int {
    days_from_civil(year, month, day) * seconds_per_day() + hour * 3600 + minute * 60 + second
}

/// Calls `chrono::TimeZone::with_ymd_and_hms` on `Utc` and reads the instant
/// back as Unix seconds and subsecond nanoseconds. Claims that chrono gives an
/// instant exactly for the dates and times of day that exist in its years, and
/// that the instant is that date and time in the proleptic Gregorian calendar.
#[verifier::external_body]
pub(crate) fn utc_with_ymd_and_hms(year: i32, month: u32, day: u32, hour: u32, minute: u32, second: u32) -> (r: Option<(i64, u32)>)
    ensures
        r is Some <==> valid_civil(year as int, month as int, day as int, hour as int, minute as int, second as int),
        r matches Some(t) ==> t.0 == civil_seconds(year as int, month as int, day as int, hour as int, minute as int, second as int)
            && t.1 == 0,
{
    match Utc.with_ymd_and_hms(year, month, day, hour, minute, second).single() {
        Some(dt) => Some((dt.timestamp(), dt.timestamp_subsec_nanos())),
        None => None,
    }
}

/// Calls `chrono::DateTime::checked_sub_signed` with `TimeDelta::days(days)` on
/// the UTC instant given as Unix seconds and nanoseconds, and reads the result
/// back the same way. Claims that the result is the instant `days` whole days
/// earlier, present exactly when it lies in chrono's range.
#[verifier::external_body]
pub(crate) fn utc_checked_sub_days(seconds: i64, nanos: u32, days: i64) -> (r: Option<(i64, u32)>)
    requires
        utc_in_range(seconds as int),
        nanos < 1_000_000_000,
        days_span_in_range(days as int),
    ensures
        r is Some <==> utc_in_range(seconds - days * seconds_per_day()),
        r matches Some(t) ==> t.0 == seconds - days * seconds_per_day() && t.1 == nanos,
{
    match DateTime::from_timestamp(seconds, nanos) {
        Some(dt) => match dt.checked_sub_signed(TimeDelta::days(days)) {
            Some(earlier) => Some((earlier.timestamp(), earlier.timestamp_subsec_nanos())),
            None => None,
        },
        None => None,
    }
}

/// Calls `chrono::DateTime::checked_add_signed` with `TimeDelta::days(days)` on
/// the UTC instant given as Unix seconds and nanoseconds, and reads the result
/// back the same way. Claims that the result is the instant `days` whole days
/// later, present exactly when it lies in chrono's range.
#[verifier::external_body]
pub(crate) fn utc_checked_add_days(seconds: i64, nanos: u32, days: i64) -> (r: Option<(i64, u32)>)
    requires
        utc_in_range(seconds as int),
        nanos < 1_000_000_000,
        days_span_in_range(days as int),
    ensures
        r is Some <==> utc_in_range(seconds + days * seconds_per_day()),
        r matches Some(t) ==> t.0 == seconds + days * seconds_per_day() && t.1 == nanos,
{
    match DateTime::from_timestamp(seconds, nanos) {
        Some(dt) => match dt.checked_add_signed(TimeDelta::days(days)) {
            Some(later) => Some((later.timestamp(), later.timestamp_subsec_nanos())),
            None => None,
        },
        None => None,
    }
}

} // verus!
