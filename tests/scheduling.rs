use schedule_rs::{
    first_weekday_occurrence, next_occurrence, Interval, Schedule, ScheduleError, Scheduled,
    TaskRunner, Timestamp, Weekday,
};
use std::sync::atomic::{AtomicUsize, Ordering};
use std::sync::Arc;

fn at(y: i32, mo: u32, d: u32, h: u32, mi: u32, s: u32) -> Timestamp {
    let secs = chrono::NaiveDate::from_ymd_opt(y, mo, d)
        .unwrap()
        .and_hms_opt(h, mi, s)
        .unwrap()
        .and_utc()
        .timestamp();
    Timestamp::from_secs(secs)
}

fn counter() -> (Arc<AtomicUsize>, impl Fn() + Send + 'static) {
    let count = Arc::new(AtomicUsize::new(0));
    let c = count.clone();
    (count, move || {
        c.fetch_add(1, Ordering::SeqCst);
    })
}

fn pass<F: Fn() + Send + 'static>(runner: &mut TaskRunner<F>, now: Timestamp) -> Vec<usize> {
    let fired = runner.begin_pass(now);
    for &i in fired.iter() {
        (runner.task(i).action())();
    }
    runner.end_pass();
    fired
}

fn plus(t: Timestamp, secs: i64) -> Timestamp {
    Timestamp::from_secs(t.secs() + secs)
}

#[test]
fn fixed_units_add_their_length() {
    let t0 = at(2024, 3, 10, 8, 30, 15);
    assert_eq!(next_occurrence(Interval::Minute(1), t0), Ok(plus(t0, 60)));
    assert_eq!(next_occurrence(Interval::Minute(7), t0), Ok(plus(t0, 420)));
    assert_eq!(next_occurrence(Interval::Hour(5), t0), Ok(plus(t0, 5 * 3600)));
    assert_eq!(next_occurrence(Interval::Day(2), t0), Ok(plus(t0, 2 * 86400)));
    assert_eq!(next_occurrence(Interval::Week(3), t0), Ok(plus(t0, 3 * 604800)));
    let big = u32::MAX;
    assert_eq!(
        next_occurrence(Interval::Week(big), t0),
        Ok(plus(t0, big as i64 * 604800))
    );
}

#[test]
fn fixed_units_out_of_range_is_an_error() {
    let late = Timestamp::from_secs(i64::MAX - 30);
    assert_eq!(next_occurrence(Interval::Minute(1), late), Err(ScheduleError::InvalidDate));
}

#[test]
fn months_keep_day_and_time() {
    let t0 = at(2024, 1, 15, 10, 20, 30);
    assert_eq!(next_occurrence(Interval::Month(1), t0), Ok(at(2024, 2, 15, 10, 20, 30)));
    assert_eq!(next_occurrence(Interval::Month(12), t0), Ok(at(2025, 1, 15, 10, 20, 30)));
}

#[test]
fn months_roll_over_into_the_next_year() {
    let t0 = at(2023, 11, 5, 0, 0, 0);
    assert_eq!(next_occurrence(Interval::Month(3), t0), Ok(at(2024, 2, 5, 0, 0, 0)));
}

#[test]
fn month_to_a_missing_day_is_an_error() {
    let t0 = at(2024, 1, 31, 9, 0, 0);
    assert_eq!(next_occurrence(Interval::Month(1), t0), Err(ScheduleError::InvalidDate));
}

#[test]
fn years_keep_the_rest_of_the_date() {
    let t0 = at(2023, 6, 1, 12, 0, 0);
    assert_eq!(next_occurrence(Interval::Year(2), t0), Ok(at(2025, 6, 1, 12, 0, 0)));
}

#[test]
fn leap_day_to_a_common_year_is_an_error() {
    let t0 = at(2024, 2, 29, 12, 0, 0);
    assert_eq!(next_occurrence(Interval::Year(1), t0), Err(ScheduleError::InvalidDate));
    assert_eq!(next_occurrence(Interval::Year(4), t0), Ok(at(2028, 2, 29, 12, 0, 0)));
}

#[test]
fn calculator_gives_the_same_answer_twice() {
    let t0 = at(2024, 5, 20, 7, 0, 0);
    for rule in [Interval::Minute(2), Interval::Hour(1), Interval::Month(4), Interval::Year(1)] {
        assert_eq!(next_occurrence(rule, t0), next_occurrence(rule, t0));
    }
    assert_eq!(
        first_weekday_occurrence(Weekday::Fri, None, t0),
        first_weekday_occurrence(Weekday::Fri, None, t0)
    );
}

#[test]
fn weekday_offset_adds_the_two_weekday_numbers() {
    // 2024-01-03 is a Wednesday (3); Monday is 1: (3 + 1) mod 7 = 4 days.
    let wednesday = at(2024, 1, 3, 10, 0, 0);
    assert_eq!(
        first_weekday_occurrence(Weekday::Mon, None, wednesday),
        Ok(at(2024, 1, 7, 10, 0, 0))
    );
}

#[test]
fn weekday_offset_can_be_zero() {
    // 2024-01-02 is a Tuesday (2); Friday is 5: (2 + 5) mod 7 = 0 days.
    let tuesday = at(2024, 1, 2, 18, 45, 0);
    assert_eq!(
        first_weekday_occurrence(Weekday::Fri, None, tuesday),
        Ok(tuesday)
    );
}

#[test]
fn weekday_offset_past_the_end_of_the_month_is_an_error() {
    // 2024-01-31 is a Wednesday: 31 + 4 is no day of January.
    let wednesday = at(2024, 1, 31, 10, 0, 0);
    assert_eq!(
        first_weekday_occurrence(Weekday::Mon, None, wednesday),
        Err(ScheduleError::InvalidDate)
    );
}

#[test]
fn monday_at_nine_built_on_a_friday() {
    // 2024-01-05 is a Friday (5): (5 + 1) mod 7 = 6 days, at 09:00:00.
    let friday = at(2024, 1, 5, 16, 12, 40);
    let (count, f) = counter();
    let task = Schedule::every().monday().at("09:00").unwrap().run_at(f, friday).unwrap();
    let first = at(2024, 1, 11, 9, 0, 0);
    assert_eq!(task.next_execution(), Some(first));
    assert_eq!(task.interval(), Interval::Week(1));

    let mut runner = TaskRunner::one(task);
    assert_eq!(pass(&mut runner, plus(first, -1)), Vec::<usize>::new());
    assert_eq!(pass(&mut runner, first), vec![0]);
    assert_eq!(count.load(Ordering::SeqCst), 1);
    assert_eq!(runner.task(0).next_execution(), Some(plus(first, 7 * 86400)));
}

#[test]
fn time_of_day_must_be_hh_mm() {
    assert_eq!(Schedule::every().friday().at("25:00").err(), Some(ScheduleError::InvalidTime));
    assert_eq!(Schedule::every().friday().at("9h30").err(), Some(ScheduleError::InvalidTime));
    assert_eq!(Schedule::every().friday().at("").err(), Some(ScheduleError::InvalidTime));
    let b = Schedule::every().friday().at("23:59");
    assert!(b.is_ok());
}

#[test]
fn time_of_day_replaces_the_clock_fields() {
    let tuesday = at(2024, 1, 2, 18, 45, 10);
    let (_, f) = counter();
    let task = Schedule::every_num(2).friday().at("07:05").unwrap().run_at(f, tuesday).unwrap();
    assert_eq!(task.next_execution(), Some(at(2024, 1, 2, 7, 5, 0)));
    assert_eq!(task.interval(), Interval::Week(2));
}

#[test]
fn every_num_weekdays_keep_the_multiplier() {
    let t0 = at(2024, 1, 2, 0, 0, 0);
    let days = [
        Schedule::every_num(3).monday(),
        Schedule::every_num(3).tuesday(),
        Schedule::every_num(3).wednesday(),
        Schedule::every_num(3).thursday(),
        Schedule::every_num(3).friday(),
        Schedule::every_num(3).saturday(),
        Schedule::every_num(3).sunday(),
    ];
    for b in days {
        let (_, f) = counter();
        let task = b.run_at(f, t0).unwrap();
        assert_eq!(task.interval(), Interval::Week(3));
    }
}

#[test]
fn unit_steps_choose_their_rules() {
    let t0 = at(2024, 1, 10, 0, 0, 0);
    let one = [
        (Schedule::every().minute(), Interval::Minute(1)),
        (Schedule::every().hour(), Interval::Hour(1)),
        (Schedule::every().day(), Interval::Day(1)),
        (Schedule::every().week(), Interval::Week(1)),
        (Schedule::every().month(), Interval::Month(1)),
        (Schedule::every().year(), Interval::Year(1)),
        (Schedule::every_num(4).minutes(), Interval::Minute(4)),
        (Schedule::every_num(4).hours(), Interval::Hour(4)),
        (Schedule::every_num(4).days(), Interval::Day(4)),
        (Schedule::every_num(4).weeks(), Interval::Week(4)),
        (Schedule::every_num(4).months(), Interval::Month(4)),
        (Schedule::every_num(4).years(), Interval::Year(4)),
    ];
    for (b, rule) in one {
        let (_, f) = counter();
        let task = b.run_at(f, t0).unwrap();
        assert_eq!(task.interval(), rule);
        assert_eq!(task.remaining_runs(), None);
        assert_eq!(Some(task.next_execution().unwrap()), next_occurrence(rule, t0).ok());
    }
}

#[test]
fn every_minute_limit_three() {
    let t0 = at(2024, 4, 1, 12, 0, 0);
    let (count, f) = counter();
    let task = Schedule::every().minute().limit(3).run_at(f, t0).unwrap();
    assert_eq!(task.next_execution(), Some(plus(t0, 60)));
    assert_eq!(task.remaining_runs(), Some(3));
    let mut runner = TaskRunner::one(task);

    assert_eq!(pass(&mut runner, plus(t0, 30)), Vec::<usize>::new());
    assert_eq!(count.load(Ordering::SeqCst), 0);

    assert_eq!(pass(&mut runner, plus(t0, 60)), vec![0]);
    assert_eq!(count.load(Ordering::SeqCst), 1);
    assert_eq!(runner.task(0).remaining_runs(), Some(2));

    assert_eq!(pass(&mut runner, plus(t0, 120)), vec![0]);
    assert_eq!(count.load(Ordering::SeqCst), 2);
    assert_eq!(runner.len(), 1);

    assert_eq!(pass(&mut runner, plus(t0, 180)), vec![0]);
    assert_eq!(count.load(Ordering::SeqCst), 3);
    assert_eq!(runner.len(), 0);

    assert_eq!(pass(&mut runner, plus(t0, 240)), Vec::<usize>::new());
    assert_eq!(count.load(Ordering::SeqCst), 3);
}

#[test]
fn limited_task_runs_exactly_its_limit() {
    let t0 = at(2024, 4, 1, 12, 0, 0);
    let (count, f) = counter();
    let task = Schedule::every_num(2).hours().limit(4).run_at(f, t0).unwrap();
    let mut runner = TaskRunner::one(task);
    let mut now = t0;
    for _ in 0..10_000 {
        now = plus(now, 5);
        pass(&mut runner, now);
    }
    assert_eq!(count.load(Ordering::SeqCst), 4);
    assert_eq!(runner.len(), 0);
}

#[test]
fn limit_zero_never_runs() {
    let t0 = at(2024, 4, 1, 12, 0, 0);
    let (count, f) = counter();
    let task = Schedule::every().minute().limit(0).run_at(f, t0).unwrap();
    let mut runner = TaskRunner::one(task);
    assert_eq!(pass(&mut runner, plus(t0, 3600)), Vec::<usize>::new());
    assert_eq!(count.load(Ordering::SeqCst), 0);
    assert_eq!(runner.len(), 0);
}

#[test]
fn limit_zero_leaves_at_the_first_pass_even_before_due() {
    let t0 = at(2024, 4, 1, 12, 0, 0);
    let (count, f) = counter();
    let task = Schedule::every().day().limit(0).run_at(f, t0).unwrap();
    let mut runner = TaskRunner::one(task);
    pass(&mut runner, t0);
    assert_eq!(count.load(Ordering::SeqCst), 0);
    assert_eq!(runner.len(), 0);
}

#[test]
fn unlimited_task_runs_whenever_due() {
    let t0 = at(2024, 4, 1, 12, 0, 0);
    let (count, f) = counter();
    let task = Schedule::every().minute().run_at(f, t0).unwrap();
    let mut runner = TaskRunner::one(task);
    for k in 1..=50i64 {
        assert_eq!(pass(&mut runner, plus(t0, 60 * k)), vec![0]);
        assert_eq!(pass(&mut runner, plus(t0, 60 * k + 30)), Vec::<usize>::new());
    }
    assert_eq!(count.load(Ordering::SeqCst), 50);
    assert_eq!(runner.len(), 1);
    assert_eq!(runner.task(0).remaining_runs(), None);
}

#[test]
fn passes_keep_insertion_order() {
    let t0 = at(2024, 4, 1, 12, 0, 0);
    let (_, a) = counter();
    let (_, b) = counter();
    let (_, c) = counter();
    let tasks: Vec<Scheduled<Box<dyn Fn() + Send + 'static>>> = vec![
        Schedule::every().minute().limit(1).run_at(Box::new(a) as Box<dyn Fn() + Send>, t0).unwrap(),
        Schedule::every().hour().run_at(Box::new(b) as Box<dyn Fn() + Send>, t0).unwrap(),
        Schedule::every().minute().run_at(Box::new(c) as Box<dyn Fn() + Send>, t0).unwrap(),
    ];
    let mut runner = TaskRunner::new(tasks);
    let fired = runner.begin_pass(plus(t0, 60));
    assert_eq!(fired, vec![0, 2]);
    runner.end_pass();
    assert_eq!(runner.len(), 2);
    assert_eq!(runner.task(0).interval(), Interval::Hour(1));
    assert_eq!(runner.task(1).interval(), Interval::Minute(1));
    assert_eq!(runner.task(1).next_execution(), Some(plus(t0, 120)));
}

#[test]
fn recompute_counts_from_the_pass_instant() {
    let t0 = at(2024, 4, 1, 12, 0, 0);
    let (_, f) = counter();
    let task = Schedule::every().minute().run_at(f, t0).unwrap();
    let mut runner = TaskRunner::one(task);
    pass(&mut runner, plus(t0, 605));
    assert_eq!(runner.task(0).next_execution(), Some(plus(t0, 665)));
}

#[test]
fn failed_recompute_removes_the_task() {
    let t0 = at(2024, 1, 31, 12, 0, 0);
    let (count, f) = counter();
    let task = Schedule::every().minute().run_at(f, t0).unwrap();
    let mut runner = TaskRunner::one(task);
    let late = Timestamp::from_secs(i64::MAX - 10);
    assert_eq!(pass(&mut runner, late), vec![0]);
    assert_eq!(count.load(Ordering::SeqCst), 1);
    assert_eq!(runner.len(), 0);
}

#[test]
fn run_reads_the_clock() {
    let before = chrono::Utc::now().timestamp();
    let (_, f) = counter();
    let task = Schedule::every().hour().run(f).unwrap();
    let after = chrono::Utc::now().timestamp();
    let next = task.next_execution().unwrap().secs();
    assert!(before + 3600 <= next && next <= after + 3600);
    let now = Timestamp::now().secs();
    assert!(now >= before);
}

#[test]
fn weekday_numbers_start_at_monday() {
    assert_eq!(Weekday::Mon.number_from_monday(), 1);
    assert_eq!(Weekday::Wed.number_from_monday(), 3);
    assert_eq!(Weekday::Sun.number_from_monday(), 7);
}

#[test]
fn building_on_a_missing_date_is_an_error() {
    let t0 = at(2024, 1, 31, 9, 0, 0);
    let (_, f) = counter();
    let r = Schedule::every().month().limit(2).run_at(f, t0);
    assert_eq!(r.err(), Some(ScheduleError::InvalidDate));
}

#[test]
fn limit_keeps_the_rule() {
    let t0 = at(2024, 1, 10, 0, 0, 0);
    let (_, f) = counter();
    let task = Schedule::every_num(5).days().limit(7).run_at(f, t0).unwrap();
    assert_eq!(task.interval(), Interval::Day(5));
    assert_eq!(task.remaining_runs(), Some(7));
    assert_eq!(task.next_execution(), Some(at(2024, 1, 15, 0, 0, 0)));
    let (_, g) = counter();
    let weekly = Schedule::every().sunday().limit(2).at("06:30").unwrap().run_at(g, t0).unwrap();
    assert_eq!(weekly.remaining_runs(), Some(2));
    // 2024-01-10 is a Wednesday (3); Sunday is 7: (3 + 7) mod 7 = 3 days.
    assert_eq!(weekly.next_execution(), Some(at(2024, 1, 13, 6, 30, 0)));
    assert_eq!(weekly.state().rule, Interval::Week(1));
}
