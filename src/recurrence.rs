//! The recurrence calculator: from a rule and the current instant to the next due instant.

use crate::time::{
    utc_civil, utc_civil_of, utc_secs, utc_secs_of_civil, ScheduleError,
    TimeOfDay, Timestamp, Weekday,
};
use vstd::prelude::*;

verus! {

/// "Every `n` units": the recurrence rule of a task.
#[derive(Clone, Copy, Debug, PartialEq, Eq, Structural)]
pub enum Interval {
    Minute(u32),
    Hour(u32),
    Day(u32),
    Week(u32),
    Month(u32),
    Year(u32),
}

impl Interval {
    /// The multiplier `n` of "every `n` units".
    pub open spec fn multiplier(self) -> int {
        match self {
            Interval::Minute(n) => n as int,
            Interval::Hour(n) => n as int,
            Interval::Day(n) => n as int,
            Interval::Week(n) => n as int,
            Interval::Month(n) => n as int,
            Interval::Year(n) => n as int,
        }
    }

    /// Every rule is "every `n` units" with `n` at least one.
    pub open spec fn wf(self) -> bool {
        self.multiplier() >= 1
    }

    /// A rule of minutes, hours, days or weeks: a fixed length of time.
    pub open spec fn is_fixed_length(self) -> bool {
        !(self is Month) && !(self is Year)
    }

    /// The length in seconds of one unit of a fixed-length rule.
    pub open spec fn unit_seconds(self) -> int {
        match self {
            Interval::Minute(_) => 60,
            Interval::Hour(_) => 3600,
            Interval::Day(_) => 86400,
            _ => 604800,
        }
    }
}

/// The instant `delta` seconds after `t`, where that fits in an `i64`.
pub open spec fn shifted(t: Timestamp, delta: int) -> Result<Timestamp, ScheduleError> {
    let s = t.secs + delta;
    if i64::MIN <= s <= i64::MAX {
        Ok(Timestamp { secs: s as i64 })
    } else {
        Err(ScheduleError::InvalidDate)
    }
}

/// The instant of a UTC calendar date and clock time, where it exists.
pub open spec fn at_civil(
    year: int,
    month: int,
    day: int,
    hour: int,
    minute: int,
    second: int,
) -> Result<Timestamp, ScheduleError> {
    if i32::MIN <= year <= i32::MAX {
        match utc_secs_of_civil(year, month, day, hour, minute, second) {
            Some(s) => Ok(Timestamp { secs: s }),
            None => Err(ScheduleError::InvalidDate),
        }
    } else {
        Err(ScheduleError::InvalidDate)
    }
}

/// The next occurrence of `rule` after `now`. Minutes, hours, days and weeks
/// add a fixed length of time. Months and years advance the calendar fields
/// (twelve months roll over into a year) and keep the day and the time of
/// day; a date that does not exist, such as 31 April or 29 February of a
/// common year, is an error rather than being moved to another day.
pub open spec fn next_occurrence_spec(rule: Interval, now: Timestamp) -> Result<Timestamp, ScheduleError> {
    match rule {
        Interval::Month(n) => match utc_civil_of(now.secs) {
            Some(c) => {
                let months = c.month - 1 + n;
                at_civil(c.year + months / 12, months % 12 + 1, c.day as int, c.hour as int, c.minute as int, c.second as int)
            },
            None => Err(ScheduleError::InvalidDate),
        },
        Interval::Year(n) => match utc_civil_of(now.secs) {
            Some(c) => at_civil(c.year + n, c.month as int, c.day as int, c.hour as int, c.minute as int, c.second as int),
            None => Err(ScheduleError::InvalidDate),
        },
        _ => shifted(now, rule.multiplier() * rule.unit_seconds()),
    }
}

/// The number of days added to the current day of the month to reach the
/// first run of a weekday rule: the sum of the two ISO weekday numbers,
/// modulo seven. This is the scheduler's rule, not "days until the next
/// such weekday".
pub open spec fn weekday_offset(current_weekday: int, target: Weekday) -> int {
    (current_weekday + target.spec_number()) % 7
}

/// The first run of a weekday rule: `weekday_offset` days after `now`'s day
/// of the month, in the same month, at `time` if given and else at `now`'s
/// time of day.
pub open spec fn first_weekday_occurrence_spec(
    day: Weekday,
    time: Option<TimeOfDay>,
    now: Timestamp,
) -> Result<Timestamp, ScheduleError> {
    match utc_civil_of(now.secs) {
        Some(c) => {
            let d = c.day + weekday_offset(c.weekday as int, day);
            match time {
                Some(t) => at_civil(c.year as int, c.month as int, d, t.hour as int, t.minute as int, t.second as int),
                None => at_civil(c.year as int, c.month as int, d, c.hour as int, c.minute as int, c.second as int),
            }
        },
        None => Err(ScheduleError::InvalidDate),
    }
}

fn civil_instant(year: i64, month: u32, day: u32, hour: u32, minute: u32, second: u32) -> (r: Result<Timestamp, ScheduleError>)
    ensures
        r == at_civil(year as int, month as int, day as int, hour as int, minute as int, second as int),
{
    if year < i32::MIN as i64 || year > i32::MAX as i64 {
        return Err(ScheduleError::InvalidDate);
    }
    match utc_secs(year as i32, month, day, hour, minute, second) {
        Some(s) => Ok(Timestamp { secs: s }),
        None => Err(ScheduleError::InvalidDate),
    }
}

/// The next occurrence of `rule` after `now` (see `next_occurrence_spec`).
pub fn next_occurrence(rule: Interval, now: Timestamp) -> (r: Result<Timestamp, ScheduleError>)
    ensures
        r == next_occurrence_spec(rule, now),
{
    match rule {
        Interval::Month(n) => {
            let c = match utc_civil(now.secs) {
                Some(c) => c,
                None => return Err(ScheduleError::InvalidDate),
            };
            let months: u64 = (c.month - 1) as u64 + n as u64;
            let year: i64 = c.year as i64 + (months / 12) as i64;
            civil_instant(year, (months % 12 + 1) as u32, c.day, c.hour, c.minute, c.second)
        },
        Interval::Year(n) => {
            let c = match utc_civil(now.secs) {
                Some(c) => c,
                None => return Err(ScheduleError::InvalidDate),
            };
            civil_instant(c.year as i64 + n as i64, c.month, c.day, c.hour, c.minute, c.second)
        },
        _ => {
            let (n, unit): (u32, i64) = match rule {
                Interval::Minute(n) => (n, 60),
                Interval::Hour(n) => (n, 3600),
                Interval::Day(n) => (n, 86400),
                Interval::Week(n) => (n, 604800),
                _ => (0, 0),
            };
            assert(n as int * unit as int <= u32::MAX as int * 604800) by (nonlinear_arith)
                requires n <= u32::MAX, 0 <= unit <= 604800;
            let delta: i64 = n as i64 * unit;
            match now.secs.checked_add(delta) {
                Some(s) => Ok(Timestamp { secs: s }),
                None => Err(ScheduleError::InvalidDate),
            }
        },
    }
}

/// The first run of a weekday rule (see `first_weekday_occurrence_spec`).
pub fn first_weekday_occurrence(day: Weekday, time: Option<TimeOfDay>, now: Timestamp) -> (r: Result<Timestamp, ScheduleError>)
    ensures
        r == first_weekday_occurrence_spec(day, time, now),
{
    let c = match utc_civil(now.secs) {
        Some(c) => c,
        None => return Err(ScheduleError::InvalidDate),
    };
    let offset: u32 = (c.weekday + day.number_from_monday()) % 7;
    let d: u32 = c.day + offset;
    match time {
        Some(t) => civil_instant(c.year as i64, c.month, d, t.hour, t.minute, t.second),
        None => civil_instant(c.year as i64, c.month, d, c.hour, c.minute, c.second),
    }
}

/// Minutes, hours, days and weeks: the next occurrence of "every `n` units"
/// is exactly `n` times the unit's length after the current instant, for
/// every `n` and every instant whose sum stays in range.
pub proof fn lemma_fixed_length_step(rule: Interval, now: Timestamp)
    requires
        rule.is_fixed_length(),
        i64::MIN <= now.secs + rule.multiplier() * rule.unit_seconds() <= i64::MAX,
    ensures
        next_occurrence_spec(rule, now) == Ok::<Timestamp, ScheduleError>(
            Timestamp { secs: (now.secs + rule.multiplier() * rule.unit_seconds()) as i64 },
        ),
{
}

/// The calculator is a function of its inputs: two calls with the same rule
/// and the same instant give the same result.
pub proof fn lemma_next_occurrence_deterministic(
    rule: Interval,
    now: Timestamp,
    first: Result<Timestamp, ScheduleError>,
    second: Result<Timestamp, ScheduleError>,
)
    requires
        first == next_occurrence_spec(rule, now),
        second == next_occurrence_spec(rule, now),
    ensures
        first == second,
{
}

} // verus!
