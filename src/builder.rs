//! The construction protocol: a chain of builder steps, each consuming the
//! previous one, from "every" to a finished [`Scheduled`] task.

use crate::recurrence::{
    first_weekday_occurrence, first_weekday_occurrence_spec, next_occurrence,
    next_occurrence_spec, Interval,
};
use crate::runner::{built_as, Scheduled, TaskState};
use crate::time::{parse_time_of_day, parsed_time_of_day, ScheduleError, TimeOfDay, Timestamp, Weekday};
use vstd::prelude::*;

verus! {

/// Entry point of the construction protocol.
#[derive(Clone, Copy, Debug)]
pub struct Schedule;

impl Schedule {
    /// Run a task every single unit of time.
    pub fn every() -> (r: ScheduleBuilderOne) {
        ScheduleBuilderOne
    }

    /// Run a task every `amount` units of time.
    pub fn every_num(amount: u32) -> (r: ScheduleBuilderOnes)
        requires
            amount >= 1,
        ensures
            r.amount() == amount,
    {
        ScheduleBuilderOnes { amount }
    }
}

/// Unit step for "every single unit".
#[derive(Debug)]
pub struct ScheduleBuilderOne;

impl ScheduleBuilderOne {
    /// Run a task every minute.
    pub fn minute(self) -> (r: ScheduleBuilderTwo)
        ensures
            r.rule() == Interval::Minute(1),
            r.run_limit() is None,
    {
        ScheduleBuilderTwo { interval: Interval::Minute(1), limit: None }
    }

    /// Run a task every hour.
    pub fn hour(self) -> (r: ScheduleBuilderTwo)
        ensures
            r.rule() == Interval::Hour(1),
            r.run_limit() is None,
    {
        ScheduleBuilderTwo { interval: Interval::Hour(1), limit: None }
    }

    /// Run a task every day.
    pub fn day(self) -> (r: ScheduleBuilderTwo)
        ensures
            r.rule() == Interval::Day(1),
            r.run_limit() is None,
    {
        ScheduleBuilderTwo { interval: Interval::Day(1), limit: None }
    }

    /// Run a task every week.
    pub fn week(self) -> (r: ScheduleBuilderTwo)
        ensures
            r.rule() == Interval::Week(1),
            r.run_limit() is None,
    {
        ScheduleBuilderTwo { interval: Interval::Week(1), limit: None }
    }

    /// Run a task every month.
    pub fn month(self) -> (r: ScheduleBuilderTwo)
        ensures
            r.rule() == Interval::Month(1),
            r.run_limit() is None,
    {
        ScheduleBuilderTwo { interval: Interval::Month(1), limit: None }
    }

    /// Run a task every year.
    pub fn year(self) -> (r: ScheduleBuilderTwo)
        ensures
            r.rule() == Interval::Year(1),
            r.run_limit() is None,
    {
        ScheduleBuilderTwo { interval: Interval::Year(1), limit: None }
    }

    /// Run a task every Monday.
    pub fn monday(self) -> (r: ScheduleBuilderTwoDates)
        ensures
            r.rule() == Interval::Week(1),
            r.weekday() == Weekday::Mon,
            r.run_limit() is None,
            r.time_of_day() is None,
    {
        ScheduleBuilderTwoDates { interval: Interval::Week(1), limit: None, day: Weekday::Mon, time: None }
    }

    /// Run a task every Tuesday.
    pub fn tuesday(self) -> (r: ScheduleBuilderTwoDates)
        ensures
            r.rule() == Interval::Week(1),
            r.weekday() == Weekday::Tue,
            r.run_limit() is None,
            r.time_of_day() is None,
    {
        ScheduleBuilderTwoDates { interval: Interval::Week(1), limit: None, day: Weekday::Tue, time: None }
    }

    /// Run a task every Wednesday.
    pub fn wednesday(self) -> (r: ScheduleBuilderTwoDates)
        ensures
            r.rule() == Interval::Week(1),
            r.weekday() == Weekday::Wed,
            r.run_limit() is None,
            r.time_of_day() is None,
    {
        ScheduleBuilderTwoDates { interval: Interval::Week(1), limit: None, day: Weekday::Wed, time: None }
    }

    /// Run a task every Thursday.
    pub fn thursday(self) -> (r: ScheduleBuilderTwoDates)
        ensures
            r.rule() == Interval::Week(1),
            r.weekday() == Weekday::Thu,
            r.run_limit() is None,
            r.time_of_day() is None,
    {
        ScheduleBuilderTwoDates { interval: Interval::Week(1), limit: None, day: Weekday::Thu, time: None }
    }

    /// Run a task every Friday.
    pub fn friday(self) -> (r: ScheduleBuilderTwoDates)
        ensures
            r.rule() == Interval::Week(1),
            r.weekday() == Weekday::Fri,
            r.run_limit() is None,
            r.time_of_day() is None,
    {
        ScheduleBuilderTwoDates { interval: Interval::Week(1), limit: None, day: Weekday::Fri, time: None }
    }

    /// Run a task every Saturday.
    pub fn saturday(self) -> (r: ScheduleBuilderTwoDates)
        ensures
            r.rule() == Interval::Week(1),
            r.weekday() == Weekday::Sat,
            r.run_limit() is None,
            r.time_of_day() is None,
    {
        ScheduleBuilderTwoDates { interval: Interval::Week(1), limit: None, day: Weekday::Sat, time: None }
    }

    /// Run a task every Sunday.
    pub fn sunday(self) -> (r: ScheduleBuilderTwoDates)
        ensures
            r.rule() == Interval::Week(1),
            r.weekday() == Weekday::Sun,
            r.run_limit() is None,
            r.time_of_day() is None,
    {
        ScheduleBuilderTwoDates { interval: Interval::Week(1), limit: None, day: Weekday::Sun, time: None }
    }
}

/// Unit step for "every `amount` units".
#[derive(Clone, Copy, Debug)]
pub struct ScheduleBuilderOnes {
    amount: u32,
}

impl ScheduleBuilderOnes {
    /// The number of units between two runs.
    pub closed spec fn amount(self) -> u32 {
        self.amount
    }

    /// Run a task every `amount` minutes.
    pub fn minutes(self) -> (r: ScheduleBuilderTwo)
        ensures
            r.rule() == Interval::Minute(self.amount()),
            r.run_limit() is None,
    {
        ScheduleBuilderTwo { interval: Interval::Minute(self.amount), limit: None }
    }

    /// Run a task every `amount` hours.
    pub fn hours(self) -> (r: ScheduleBuilderTwo)
        ensures
            r.rule() == Interval::Hour(self.amount()),
            r.run_limit() is None,
    {
        ScheduleBuilderTwo { interval: Interval::Hour(self.amount), limit: None }
    }

    /// Run a task every `amount` days.
    pub fn days(self) -> (r: ScheduleBuilderTwo)
        ensures
            r.rule() == Interval::Day(self.amount()),
            r.run_limit() is None,
    {
        ScheduleBuilderTwo { interval: Interval::Day(self.amount), limit: None }
    }

    /// Run a task every `amount` weeks.
    pub fn weeks(self) -> (r: ScheduleBuilderTwo)
        ensures
            r.rule() == Interval::Week(self.amount()),
            r.run_limit() is None,
    {
        ScheduleBuilderTwo { interval: Interval::Week(self.amount), limit: None }
    }

    /// Run a task every `amount` months.
    pub fn months(self) -> (r: ScheduleBuilderTwo)
        ensures
            r.rule() == Interval::Month(self.amount()),
            r.run_limit() is None,
    {
        ScheduleBuilderTwo { interval: Interval::Month(self.amount), limit: None }
    }

    /// Run a task every `amount` years.
    pub fn years(self) -> (r: ScheduleBuilderTwo)
        ensures
            r.rule() == Interval::Year(self.amount()),
            r.run_limit() is None,
    {
        ScheduleBuilderTwo { interval: Interval::Year(self.amount), limit: None }
    }

    /// Run a task on Monday, every `amount` weeks.
    pub fn monday(self) -> (r: ScheduleBuilderTwoDates)
        ensures
            r.rule() == Interval::Week(self.amount()),
            r.weekday() == Weekday::Mon,
            r.run_limit() is None,
            r.time_of_day() is None,
    {
        ScheduleBuilderTwoDates { interval: Interval::Week(self.amount), limit: None, day: Weekday::Mon, time: None }
    }

    /// Run a task on Tuesday, every `amount` weeks.
    pub fn tuesday(self) -> (r: ScheduleBuilderTwoDates)
        ensures
            r.rule() == Interval::Week(self.amount()),
            r.weekday() == Weekday::Tue,
            r.run_limit() is None,
            r.time_of_day() is None,
    {
        ScheduleBuilderTwoDates { interval: Interval::Week(self.amount), limit: None, day: Weekday::Tue, time: None }
    }

    /// Run a task on Wednesday, every `amount` weeks.
    pub fn wednesday(self) -> (r: ScheduleBuilderTwoDates)
        ensures
            r.rule() == Interval::Week(self.amount()),
            r.weekday() == Weekday::Wed,
            r.run_limit() is None,
            r.time_of_day() is None,
    {
        ScheduleBuilderTwoDates { interval: Interval::Week(self.amount), limit: None, day: Weekday::Wed, time: None }
    }

    /// Run a task on Thursday, every `amount` weeks.
    pub fn thursday(self) -> (r: ScheduleBuilderTwoDates)
        ensures
            r.rule() == Interval::Week(self.amount()),
            r.weekday() == Weekday::Thu,
            r.run_limit() is None,
            r.time_of_day() is None,
    {
        ScheduleBuilderTwoDates { interval: Interval::Week(self.amount), limit: None, day: Weekday::Thu, time: None }
    }

    /// Run a task on Friday, every `amount` weeks.
    pub fn friday(self) -> (r: ScheduleBuilderTwoDates)
        ensures
            r.rule() == Interval::Week(self.amount()),
            r.weekday() == Weekday::Fri,
            r.run_limit() is None,
            r.time_of_day() is None,
    {
        ScheduleBuilderTwoDates { interval: Interval::Week(self.amount), limit: None, day: Weekday::Fri, time: None }
    }

    /// Run a task on Saturday, every `amount` weeks.
    pub fn saturday(self) -> (r: ScheduleBuilderTwoDates)
        ensures
            r.rule() == Interval::Week(self.amount()),
            r.weekday() == Weekday::Sat,
            r.run_limit() is None,
            r.time_of_day() is None,
    {
        ScheduleBuilderTwoDates { interval: Interval::Week(self.amount), limit: None, day: Weekday::Sat, time: None }
    }

    /// Run a task on Sunday, every `amount` weeks.
    pub fn sunday(self) -> (r: ScheduleBuilderTwoDates)
        ensures
            r.rule() == Interval::Week(self.amount()),
            r.weekday() == Weekday::Sun,
            r.run_limit() is None,
            r.time_of_day() is None,
    {
        ScheduleBuilderTwoDates { interval: Interval::Week(self.amount), limit: None, day: Weekday::Sun, time: None }
    }
}

/// Last step for a unit rule: an optional limit, then the action.
#[derive(Debug)]
pub struct ScheduleBuilderTwo {
    interval: Interval,
    limit: Option<u64>,
}

impl ScheduleBuilderTwo {
    /// The recurrence rule chosen.
    pub closed spec fn rule(self) -> Interval {
        self.interval
    }

    /// The limit on the number of runs, if one was set.
    pub closed spec fn run_limit(self) -> Option<u64> {
        self.limit
    }

    /// Limits the number of runs to `amount`. A limit of zero gives a task
    /// that never runs and leaves the runner at its first pass.
    pub fn limit(self, amount: u64) -> (r: ScheduleBuilderTwo)
        ensures
            r.rule() == self.rule(),
            r.run_limit() == Some(amount),
    {
        ScheduleBuilderTwo { interval: self.interval, limit: Some(amount) }
    }

    /// Finishes the task with the action `fun`, first due at the next
    /// occurrence of the rule after `now`.
    pub fn run_at<F: Fn() + Send + 'static>(self, fun: F, now: Timestamp) -> (r: Result<Scheduled<F>, ScheduleError>)
        ensures
            built_as(r, next_occurrence_spec(self.rule(), now), self.rule(), self.run_limit(), fun),
    {
        match next_occurrence(self.interval, now) {
            Ok(first) => Ok(Scheduled::new(TaskState { next: Some(first), rule: self.interval, remaining: self.limit }, fun)),
            Err(e) => Err(e),
        }
    }

    /// Finishes the task with the action `fun`, counting from the current
    /// instant of the system clock.
    pub fn run<F: Fn() + Send + 'static>(self, fun: F) -> (r: Result<Scheduled<F>, ScheduleError>)
        ensures
            exists|now: Timestamp| built_as(r, next_occurrence_spec(self.rule(), now), self.rule(), self.run_limit(), fun),
    {
        self.run_at(fun, Timestamp::now())
    }
}

/// Last step for a weekday rule: an optional limit, an optional time of
/// day, then the action.
#[derive(Debug)]
pub struct ScheduleBuilderTwoDates {
    interval: Interval,
    limit: Option<u64>,
    day: Weekday,
    time: Option<TimeOfDay>,
}

impl ScheduleBuilderTwoDates {
    /// The rule of the runs after the first: every so many weeks.
    pub closed spec fn rule(self) -> Interval {
        self.interval
    }

    /// The limit on the number of runs, if one was set.
    pub closed spec fn run_limit(self) -> Option<u64> {
        self.limit
    }

    /// The weekday of the first run.
    pub closed spec fn weekday(self) -> Weekday {
        self.day
    }

    /// The time of day of the first run, if one was set.
    pub closed spec fn time_of_day(self) -> Option<TimeOfDay> {
        self.time
    }

    /// Limits the number of runs to `amount`. A limit of zero gives a task
    /// that never runs and leaves the runner at its first pass.
    pub fn limit(self, amount: u64) -> (r: ScheduleBuilderTwoDates)
        ensures
            r.rule() == self.rule(),
            r.weekday() == self.weekday(),
            r.time_of_day() == self.time_of_day(),
            r.run_limit() == Some(amount),
    {
        ScheduleBuilderTwoDates { interval: self.interval, limit: Some(amount), day: self.day, time: self.time }
    }

    /// Sets the time of day of the first run from a 24-hour `HH:MM` string;
    /// any other text is an `InvalidTime` error.
    pub fn at(self, time: &str) -> (r: Result<ScheduleBuilderTwoDates, ScheduleError>)
        ensures
            match parsed_time_of_day(time@) {
                Some(t) => r matches Ok(b) && b.time_of_day() == Some(t) && b.rule() == self.rule()
                    && b.weekday() == self.weekday() && b.run_limit() == self.run_limit(),
                None => r == Err::<ScheduleBuilderTwoDates, ScheduleError>(ScheduleError::InvalidTime),
            },
    {
        match parse_time_of_day(time) {
            Some(t) => Ok(ScheduleBuilderTwoDates { interval: self.interval, limit: self.limit, day: self.day, time: Some(t) }),
            None => Err(ScheduleError::InvalidTime),
        }
    }

    /// Finishes the task with the action `fun`. The first run follows the
    /// weekday rule from `now`; the later ones come every so many weeks.
    pub fn run_at<F: Fn() + Send + 'static>(self, fun: F, now: Timestamp) -> (r: Result<Scheduled<F>, ScheduleError>)
        ensures
            built_as(r, first_weekday_occurrence_spec(self.weekday(), self.time_of_day(), now), self.rule(), self.run_limit(), fun),
    {
        match first_weekday_occurrence(self.day, self.time, now) {
            Ok(first) => Ok(Scheduled::new(TaskState { next: Some(first), rule: self.interval, remaining: self.limit }, fun)),
            Err(e) => Err(e),
        }
    }

    /// Finishes the task with the action `fun`, counting from the current
    /// instant of the system clock.
    pub fn run<F: Fn() + Send + 'static>(self, fun: F) -> (r: Result<Scheduled<F>, ScheduleError>)
        ensures
            exists|now: Timestamp|
                built_as(r, first_weekday_occurrence_spec(self.weekday(), self.time_of_day(), now), self.rule(), self.run_limit(), fun),
    {
        self.run_at(fun, Timestamp::now())
    }
}

} // verus!
