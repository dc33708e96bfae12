//! Dates and clock times in UTC, as the `chrono` crate computes them.

use chrono::{Datelike, TimeZone};
use vstd::prelude::*;
use crate::text::has_shape;

verus! {

/// The day number of 1 January 1970 in the proleptic Gregorian calendar,
/// where 1 January of the year 1 is day 1.
pub const EPOCH_DAY: i32 = 719_163;

/// The last second of the year 9999, counted from the epoch.
pub const LAST_SECOND: i64 = 253_402_300_799;

/// The pattern of a time of day with microseconds: `HH:MM:SS.ffffffZ`.
pub open spec fn time_pattern() -> Seq<char> {
    "%H:%M:%S%.6fZ"@
}

/// The pattern of a date and a time of day with microseconds:
/// `YYYY-MM-DD HH:MM:SS.ffffffZ`.
pub open spec fn date_time_pattern() -> Seq<char> {
    "%Y-%m-%d %H:%M:%S%.6fZ"@
}

/// The shape of a text under [`time_pattern`], digits shown as `9`.
pub open spec fn time_shape() -> Seq<char> {
    "99:99:99.999999Z"@
}

/// The shape of a text under [`date_time_pattern`] for a year of four
/// digits, digits shown as `9`.
pub open spec fn date_time_shape() -> Seq<char> {
    "9999-99-99 99:99:99.999999Z"@
}

/// What `chrono` writes for the UTC date and time that lies `secs` seconds
/// and `nsecs` nanoseconds after the epoch, under a `strftime` pattern.
pub uninterp spec fn utc_text(secs: int, nsecs: int, pattern: Seq<char>) -> Seq<char>;

/// Calls `SystemTime::now` and `chrono`'s conversion of the reading to a
/// `DateTime<Utc>`, then `DateTime::date_naive` and
/// `Datelike::num_days_from_ce`: the day number of the current UTC date. The
/// result depends on the system clock, so nothing is claimed of it.
#[verifier::external_body]
pub(crate) fn utc_today() -> (day: i32) {
    chrono::DateTime::<chrono::Utc>::from(std::time::SystemTime::now()).date_naive().num_days_from_ce()
}

/// Calls `chrono::TimeZone::timestamp_opt`, `DateTime::date_naive` and
/// `Datelike::num_days_from_ce`: the day number of the UTC date on which the
/// given instant falls. `chrono` counts whole days of 86400 seconds from the
/// epoch, which is day 719163. The instant is kept within the years that
/// `chrono` can hold, and the nanoseconds below a second.
#[verifier::external_body]
pub(crate) fn utc_day(secs: i64, nsecs: u32) -> (day: i32)
    requires
        0 <= secs <= LAST_SECOND,
        nsecs < 1_000_000_000,
    ensures
        day == EPOCH_DAY + secs / 86_400,
{
    chrono::Utc.timestamp_opt(secs, nsecs).unwrap().date_naive().num_days_from_ce()
}

/// Calls `chrono::TimeZone::timestamp_opt` and `DateTime::format`, and
/// writes the result to a string: the given instant in UTC under one of the
/// two patterns of this module, both of which `chrono` accepts. The text is
/// a function of the instant and the pattern alone; which digits it holds is
/// left to `chrono`. Its shape is stated: for the years from 1970 to 9999
/// `chrono` writes the year with four digits, month, day, hour, minute and
/// second with two each, the fraction as a point and six digits, and the
/// other characters of the pattern as they stand.
#[verifier::external_body]
pub(crate) fn utc_format(secs: i64, nsecs: u32, pattern: &str) -> (text: String)
    requires
        0 <= secs <= LAST_SECOND,
        nsecs < 1_000_000_000,
        pattern@ == time_pattern() || pattern@ == date_time_pattern(),
    ensures
        text@ == utc_text(secs as int, nsecs as int, pattern@),
        pattern@ == time_pattern() ==> has_shape(text@, time_shape()),
        pattern@ == date_time_pattern() ==> has_shape(text@, date_time_shape()),
{
    chrono::Utc.timestamp_opt(secs, nsecs).unwrap().format(pattern).to_string()
}

} // verus!
