//! A small recurring-task scheduler.
//!
//! A task is described through a chain of builder steps ("every 3 weeks",
//! "every Monday at 09:00", optionally "at most K times"); the result is a
//! [`Scheduled`] task with its first due time. A [`TaskRunner`] holds such
//! tasks and, one polling pass at a time, decides which are due, advances
//! their schedules and drops the exhausted ones.

mod builder;
mod recurrence;
mod runner;
mod time;

pub use builder::{
    Schedule, ScheduleBuilderOne, ScheduleBuilderOnes, ScheduleBuilderTwo, ScheduleBuilderTwoDates,
};
pub use recurrence::{
    at_civil, first_weekday_occurrence, first_weekday_occurrence_spec, lemma_fixed_length_step,
    lemma_next_occurrence_deterministic, next_occurrence, next_occurrence_spec, shifted,
    weekday_offset, Interval,
};
pub use runner::{
    built_as, due_positions, first_run_bound, lemma_limited_task_runs_at_most_limit, lemma_limited_task_runs_out,
    lemma_single_task_pass, lemma_unlimited_task_runs_when_due, lemma_zero_limit_never_runs, ok_of,
    pass_states, runs_over_passes, state_after_passes, Scheduled, TaskRunner, TaskState,
};
pub use time::{
    parsed_time_of_day, utc_civil_of, utc_secs_of_civil, CivilTime, ScheduleError, TimeOfDay,
    Timestamp, Weekday,
};
