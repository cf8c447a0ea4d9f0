//! Instants, calendar fields and the calls into chrono that convert between them.

use chrono::{Datelike, Timelike};
use vstd::prelude::*;

verus! {

/// A UTC instant, in whole seconds since 1970-01-01 00:00:00 UTC.
#[derive(Clone, Copy, Debug, PartialEq, Eq, Structural)]
pub struct Timestamp {
    pub secs: i64,
}

impl Timestamp {
    pub fn from_secs(secs: i64) -> (r: Timestamp)
        ensures
            r.secs == secs,
    {
        Timestamp { secs }
    }

    pub fn secs(&self) -> (r: i64)
        ensures
            r == self.secs,
    {
        self.secs
    }

    /// The current instant, read from the system clock.
    pub fn now() -> (r: Timestamp) {
        Timestamp { secs: utc_now_secs() }
    }
}

/// The calendar and clock fields of a UTC instant.
#[derive(Clone, Copy, Debug, PartialEq, Eq, Structural)]
pub struct CivilTime {
    pub year: i32,
    /// 1 to 12.
    pub month: u32,
    /// 1 to 31.
    pub day: u32,
    pub hour: u32,
    pub minute: u32,
    pub second: u32,
    /// Day of the week, Monday = 1 to Sunday = 7.
    pub weekday: u32,
}

/// A time of day.
#[derive(Clone, Copy, Debug, PartialEq, Eq, Structural)]
pub struct TimeOfDay {
    pub hour: u32,
    pub minute: u32,
    pub second: u32,
}

/// A day of the week.
#[derive(Clone, Copy, Debug, PartialEq, Eq, Structural)]
pub enum Weekday {
    Mon,
    Tue,
    Wed,
    Thu,
    Fri,
    Sat,
    Sun,
}

impl Weekday {
    pub open spec fn spec_number(self) -> int {
        match self {
            Weekday::Mon => 1,
            Weekday::Tue => 2,
            Weekday::Wed => 3,
            Weekday::Thu => 4,
            Weekday::Fri => 5,
            Weekday::Sat => 6,
            Weekday::Sun => 7,
        }
    }

    /// The ISO 8601 weekday number: Monday = 1 to Sunday = 7.
    pub fn number_from_monday(&self) -> (r: u32)
        ensures
            r == self.spec_number(),
            1 <= r <= 7,
    {
        match self {
            Weekday::Mon => 1,
            Weekday::Tue => 2,
            Weekday::Wed => 3,
            Weekday::Thu => 4,
            Weekday::Fri => 5,
            Weekday::Sat => 6,
            Weekday::Sun => 7,
        }
    }
}

/// Why a schedule could not be built or advanced.
#[derive(Clone, Copy, Debug, PartialEq, Eq, Structural)]
pub enum ScheduleError {
    /// The time of day is not of the form `HH:MM`.
    InvalidTime,
    /// The calendar arithmetic gave a date that does not exist or is out of range.
    InvalidDate,
}

/// The calendar fields of the instant `secs` seconds after the Unix epoch,
/// or `None` where that instant is out of chrono's range.
pub uninterp spec fn utc_civil_of(secs: i64) -> Option<CivilTime>;

/// The Unix timestamp of the given UTC calendar date and clock time, or `None`
/// where no such date and time exist.
pub uninterp spec fn utc_secs_of_civil(
    year: int,
    month: int,
    day: int,
    hour: int,
    minute: int,
    second: int,
) -> Option<i64>;

/// What chrono reads from a time of day written as `HH:MM`.
pub uninterp spec fn parsed_time_of_day(s: Seq<char>) -> Option<TimeOfDay>;

/// Relies on chrono's `DateTime::from_timestamp` (`None` out of range) and
/// on the documented ranges of `Datelike::month`, `Datelike::day` and
/// `Weekday::number_from_monday`.
#[verifier::external_body]
pub(crate) fn utc_civil(secs: i64) -> (r: Option<CivilTime>)
    ensures
        r == utc_civil_of(secs),
        r matches Some(c) ==> 1 <= c.month <= 12 && 1 <= c.day <= 31 && 1 <= c.weekday <= 7,
{
    let t = chrono::DateTime::from_timestamp(secs, 0)?;
    Some(CivilTime {
        year: t.year(),
        month: t.month(),
        day: t.day(),
        hour: t.hour(),
        minute: t.minute(),
        second: t.second(),
        weekday: t.weekday().number_from_monday(),
    })
}

/// Relies on chrono's `NaiveDate::from_ymd_opt` and `NaiveDate::and_hms_opt`
/// (`None` on a date or time that does not exist) and on `timestamp` of the
/// resulting UTC date-time.
#[verifier::external_body]
pub(crate) fn utc_secs(year: i32, month: u32, day: u32, hour: u32, minute: u32, second: u32) -> (r: Option<i64>)
    ensures
        r == utc_secs_of_civil(year as int, month as int, day as int, hour as int, minute as int, second as int),
{
    let date = chrono::NaiveDate::from_ymd_opt(year, month, day)?;
    Some(date.and_hms_opt(hour, minute, second)?.and_utc().timestamp())
}

/// Relies on chrono's `NaiveTime::parse_from_str` with the format `%H:%M`:
/// the hour and minute of a valid time, with seconds taken as zero.
#[verifier::external_body]
pub(crate) fn parse_time_of_day(s: &str) -> (r: Option<TimeOfDay>)
    ensures
        r == parsed_time_of_day(s@),
{
    let t = chrono::NaiveTime::parse_from_str(s, "%H:%M").ok()?;
    Some(TimeOfDay { hour: t.hour(), minute: t.minute(), second: t.second() })
}

/// Relies on chrono's `Utc::now` and `DateTime::timestamp`; nothing is known
/// of the value read.
#[verifier::external_body]
fn utc_now_secs() -> (r: i64) {
    chrono::Utc::now().timestamp()
}

} // verus!
