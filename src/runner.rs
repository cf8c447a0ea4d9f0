//! Scheduled tasks and the runner's polling pass.

use crate::recurrence::{lemma_fixed_length_step, next_occurrence, next_occurrence_spec, Interval};
use crate::time::{ScheduleError, Timestamp};
use vstd::prelude::*;

verus! {

/// The `Ok` value of a result, if any.
pub open spec fn ok_of(r: Result<Timestamp, ScheduleError>) -> Option<Timestamp> {
    match r {
        Ok(t) => Some(t),
        Err(_) => None,
    }
}

/// The schedule of a task: when it is next due, how it recurs and how many
/// runs it has left.
#[derive(Clone, Copy, Debug, PartialEq, Eq, Structural)]
pub struct TaskState {
    /// The next due instant; `None` once the next occurrence could not be
    /// computed, which ends the task.
    pub next: Option<Timestamp>,
    pub rule: Interval,
    /// `None` for a task without a limit.
    pub remaining: Option<u64>,
}

impl TaskState {
    /// The task runs in a pass at `now`: it is due and has runs left.
    pub open spec fn is_due(self, now: Timestamp) -> bool {
        &&& self.next matches Some(t)
        &&& t.secs <= now.secs
        &&& self.remaining != Some(0u64)
    }

    /// The task is over: its limit is used up or it has no next occurrence.
    pub open spec fn is_spent(self) -> bool {
        self.remaining == Some(0u64) || self.next is None
    }

    /// The schedule after a run in the pass at `now`: one run fewer, and the
    /// next occurrence counted from the pass's instant.
    pub open spec fn fired(self, now: Timestamp) -> TaskState {
        TaskState {
            next: ok_of(next_occurrence_spec(self.rule, now)),
            rule: self.rule,
            remaining: match self.remaining {
                Some(k) => Some((k - 1) as u64),
                None => None,
            },
        }
    }

    /// The schedule after the pass at `now`, before spent tasks are removed.
    pub open spec fn stepped(self, now: Timestamp) -> TaskState {
        if self.is_due(now) {
            self.fired(now)
        } else {
            self
        }
    }

    /// The schedule after a whole pass at `now`; `None` where the pass
    /// removes the task.
    pub open spec fn after_pass(self, now: Timestamp) -> Option<TaskState> {
        if self.stepped(now).is_spent() {
            None
        } else {
            Some(self.stepped(now))
        }
    }

    fn fire(self, now: Timestamp) -> (r: TaskState)
        requires
            self.is_due(now),
        ensures
            r == self.fired(now),
    {
        let next = match next_occurrence(self.rule, now) {
            Ok(t) => Some(t),
            Err(_) => None,
        };
        let remaining = match self.remaining {
            Some(k) => Some(k - 1),
            None => None,
        };
        TaskState { next, rule: self.rule, remaining }
    }

    fn due(&self, now: Timestamp) -> (r: bool)
        ensures
            r == self.is_due(now),
    {
        match self.next {
            Some(t) => t.secs <= now.secs && !matches!(self.remaining, Some(0)),
            None => false,
        }
    }

    fn spent(&self) -> (r: bool)
        ensures
            r == self.is_spent(),
    {
        matches!(self.remaining, Some(0)) || self.next.is_none()
    }
}

/// A built task: its schedule and the action to run when it is due.
#[derive(Debug)]
pub struct Scheduled<F> {
    state: TaskState,
    function: F,
}

impl<F> View for Scheduled<F> {
    type V = TaskState;

    closed spec fn view(&self) -> TaskState {
        self.state
    }
}

impl<F> Scheduled<F> {
    /// The action of the task.
    pub closed spec fn spec_action(self) -> F {
        self.function
    }

    pub(crate) fn new(state: TaskState, function: F) -> (r: Scheduled<F>)
        ensures
            r@ == state,
            r.spec_action() == function,
    {
        Scheduled { state, function }
    }

    /// The next due instant, if the task has one.
    pub fn next_execution(&self) -> (r: Option<Timestamp>)
        ensures
            r == self@.next,
    {
        self.state.next
    }

    /// The runs left, or `None` for a task without a limit.
    pub fn remaining_runs(&self) -> (r: Option<u64>)
        ensures
            r == self@.remaining,
    {
        self.state.remaining
    }

    /// How the task recurs.
    pub fn interval(&self) -> (r: Interval)
        ensures
            r == self@.rule,
    {
        self.state.rule
    }

    /// The whole schedule of the task.
    pub fn state(&self) -> (r: TaskState)
        ensures
            r == self@,
    {
        self.state
    }

    /// The action to run when the task is due.
    pub fn action(&self) -> (r: &F)
        ensures
            *r == self.spec_action(),
    {
        &self.function
    }
}

/// `r` is the task built from a first due instant (or the error computing
/// it), a rule, a limit and an action.
pub open spec fn built_as<F>(
    r: Result<Scheduled<F>, ScheduleError>,
    first: Result<Timestamp, ScheduleError>,
    rule: Interval,
    limit: Option<u64>,
    fun: F,
) -> bool {
    match first {
        Ok(t) => r matches Ok(s) && s@ == (TaskState { next: Some(t), rule, remaining: limit }) && s.spec_action() == fun,
        Err(e) => r matches Err(e2) && e2 == e,
    }
}

/// The positions, below `upto`, of the tasks that are due at `now`, in order.
pub open spec fn due_positions(states: Seq<TaskState>, now: Timestamp, upto: int) -> Seq<usize>
    decreases upto,
{
    if upto <= 0 {
        Seq::empty()
    } else {
        let earlier = due_positions(states, now, upto - 1);
        if states[upto - 1].is_due(now) {
            earlier.push((upto - 1) as usize)
        } else {
            earlier
        }
    }
}

/// The schedules after a whole pass at `now`: each task stepped, in order,
/// and the spent ones removed.
pub open spec fn pass_states(states: Seq<TaskState>, now: Timestamp) -> Seq<TaskState> {
    states.map_values(|s: TaskState| s.stepped(now)).filter(|s: TaskState| !s.is_spent())
}

/// The schedule of one task after passes at the instants `nows`, in order;
/// `None` once a pass has removed it.
pub open spec fn state_after_passes(s: TaskState, nows: Seq<Timestamp>) -> Option<TaskState>
    decreases nows.len(),
{
    if nows.len() == 0 {
        Some(s)
    } else {
        match s.after_pass(nows[0]) {
            Some(t) => state_after_passes(t, nows.drop_first()),
            None => None,
        }
    }
}

/// How many times the action of one task runs over passes at the instants
/// `nows`, in order.
pub open spec fn runs_over_passes(s: TaskState, nows: Seq<Timestamp>) -> nat
    decreases nows.len(),
{
    if nows.len() == 0 {
        0
    } else {
        let here: nat = if s.is_due(nows[0]) { 1 } else { 0 };
        match s.after_pass(nows[0]) {
            Some(t) => here + runs_over_passes(t, nows.drop_first()),
            None => here,
        }
    }
}

/// A runner that holds one task: a pass runs its action exactly when it is
/// due, and leaves the runner holding `after_pass` of it, or nothing.
pub proof fn lemma_single_task_pass(s: TaskState, now: Timestamp)
    ensures
        due_positions(seq![s], now, 1) == (if s.is_due(now) { seq![0usize] } else { Seq::<usize>::empty() }),
        pass_states(seq![s], now) == (match s.after_pass(now) {
            Some(t) => seq![t],
            None => Seq::<TaskState>::empty(),
        }),
{
    reveal_with_fuel(due_positions, 2);
    reveal(Seq::filter);
    let stepped = seq![s].map_values(|x: TaskState| x.stepped(now));
    assert(stepped =~= seq![s.stepped(now)]);
    assert(stepped.drop_last() =~= Seq::<TaskState>::empty());
    assert(Seq::<TaskState>::empty().filter(|x: TaskState| !x.is_spent()) =~= Seq::<TaskState>::empty());
    assert(Seq::<usize>::empty().push(0usize) =~= seq![0usize]);
    assert(Seq::<TaskState>::empty().push(s.stepped(now)) =~= seq![s.stepped(now)]);
}

/// A task limited to `k` runs runs at most `k` times, whatever the passes;
/// while it is held it has exactly `k` minus the runs so far left, at least
/// one; and once it has run `k` times it is gone.
pub proof fn lemma_limited_task_runs_at_most_limit(s: TaskState, k: u64, nows: Seq<Timestamp>)
    requires
        s.remaining == Some(k),
        k >= 1,
    ensures
        runs_over_passes(s, nows) <= k,
        state_after_passes(s, nows) matches Some(t) ==> t.remaining == Some((k - runs_over_passes(s, nows)) as u64)
            && runs_over_passes(s, nows) < k,
        runs_over_passes(s, nows) == k ==> state_after_passes(s, nows) is None,
    decreases nows.len(),
{
    if nows.len() > 0 {
        let now = nows[0];
        if s.is_due(now) {
            if k > 1 {
                if let Some(t) = s.after_pass(now) {
                    lemma_limited_task_runs_at_most_limit(t, (k - 1) as u64, nows.drop_first());
                }
            }
        } else if let Some(t) = s.after_pass(now) {
            lemma_limited_task_runs_at_most_limit(t, k, nows.drop_first());
        }
    }
}

/// The latest instant at which a task due at `due` runs, when passes come
/// at most `gap` seconds apart and the first one is at `first`.
pub open spec fn first_run_bound(due: int, first: int, gap: int) -> int {
    if first >= due {
        first
    } else {
        due + gap
    }
}

/// A task of minutes, hours, days or weeks limited to `k` runs, polled by
/// passes at instants that never go back and are at most `gap` seconds
/// apart, has run exactly `k` times, and is gone, once the passes reach
/// far enough: `k - 1` periods and gaps past its first run.
pub proof fn lemma_limited_task_runs_out(s: TaskState, k: u64, nows: Seq<Timestamp>, gap: int)
    requires
        s.remaining == Some(k),
        k >= 1,
        gap >= 0,
        s.rule.wf(),
        s.rule.is_fixed_length(),
        s.next is Some,
        nows.len() > 0,
        forall|i: int| 0 < i < nows.len() ==> nows[i - 1].secs <= #[trigger] nows[i].secs <= nows[i - 1].secs + gap,
        forall|i: int| 0 <= i < nows.len() ==> #[trigger] nows[i].secs + s.rule.multiplier() * s.rule.unit_seconds() <= i64::MAX,
        nows.last().secs >= first_run_bound(s.next.unwrap().secs as int, nows[0].secs as int, gap)
            + (k - 1) * (s.rule.multiplier() * s.rule.unit_seconds() + gap),
    ensures
        runs_over_passes(s, nows) == k,
        state_after_passes(s, nows) is None,
    decreases nows.len(),
{
    let now = nows[0];
    let due = s.next.unwrap().secs as int;
    let period = s.rule.multiplier() * s.rule.unit_seconds();
    assert(period >= 1) by (nonlinear_arith)
        requires s.rule.multiplier() >= 1 && s.rule.unit_seconds() >= 60, period == s.rule.multiplier() * s.rule.unit_seconds();
    assert((k - 1) * (period + gap) >= 0) by (nonlinear_arith)
        requires k >= 1, period + gap >= 0;
    let rest = nows.drop_first();
    assert forall|i: int| 0 < i < rest.len() implies rest[i - 1].secs <= #[trigger] rest[i].secs <= rest[i - 1].secs + gap by {
        assert(rest[i] == nows[i + 1]);
        assert(rest[i - 1] == nows[i]);
    }
    assert forall|i: int| 0 <= i < rest.len() implies #[trigger] rest[i].secs + period <= i64::MAX by {
        assert(rest[i] == nows[i + 1]);
    }
    if now.secs < due {
        assert(!s.is_due(now));
        assert(s.after_pass(now) == Some(s));
        assert(nows.len() > 1);
        assert(rest.last() == nows.last());
        assert(rest[0] == nows[1]);
        lemma_limited_task_runs_out(s, k, rest, gap);
    } else {
        assert(s.is_due(now));
        lemma_fixed_length_step(s.rule, now);
        let f = s.fired(now);
        assert(f.next == Some(Timestamp { secs: (now.secs + period) as i64 }));
        if k > 1 {
            assert(!f.is_spent());
            assert(s.after_pass(now) == Some(f));
            assert((k - 1) * (period + gap) == (k - 2) * (period + gap) + (period + gap)) by (nonlinear_arith);
            assert((k - 2) * (period + gap) >= 0) by (nonlinear_arith)
                requires k >= 2, period + gap >= 0;
            assert(nows.last().secs > nows[0].secs);
            assert(nows.len() > 1);
            assert(rest.last() == nows.last());
            assert(rest[0] == nows[1]);
            assert(first_run_bound(now.secs + period, rest[0].secs as int, gap) <= now.secs + period + gap);
            lemma_limited_task_runs_out(f, (k - 1) as u64, rest, gap);
            assert(runs_over_passes(s, nows) == 1 + runs_over_passes(f, rest));
        } else {
            assert(f.is_spent());
            assert(s.after_pass(now) is None);
            assert(runs_over_passes(s, nows) == 1);
        }
    }
}

/// A task limited to zero runs never runs, and the first pass removes it.
pub proof fn lemma_zero_limit_never_runs(s: TaskState, now: Timestamp)
    requires
        s.remaining == Some(0u64),
    ensures
        !s.is_due(now),
        s.after_pass(now) is None,
{
}

/// A task without a limit runs at every pass at or after its due instant,
/// whatever the number of runs so far, and keeps no limit. No pass removes
/// it for running out of runs: it leaves the runner only at a pass where it
/// ran and its next occurrence could not be computed.
pub proof fn lemma_unlimited_task_runs_when_due(s: TaskState, now: Timestamp)
    requires
        s.remaining is None,
        s.next is Some,
    ensures
        s.is_due(now) <==> s.next.unwrap().secs <= now.secs,
        s.stepped(now).remaining is None,
        s.after_pass(now) is None <==> s.is_due(now) && next_occurrence_spec(s.rule, now) is Err,
{
}

/// The runner: an ordered collection of tasks, polled one pass at a time.
///
/// A pass at the instant `now` is `begin_pass(now)`, which advances the
/// schedule of every due task and returns their positions, then a run of
/// the actions at those positions, in order, then `end_pass()`, which drops
/// the spent tasks.
#[derive(Debug)]
pub struct TaskRunner<F> {
    tasks: Vec<Scheduled<F>>,
}

impl<F> View for TaskRunner<F> {
    type V = Seq<Scheduled<F>>;

    closed spec fn view(&self) -> Seq<Scheduled<F>> {
        self.tasks@
    }
}

impl<F> TaskRunner<F> {
    /// The schedules of the tasks, in order.
    pub open spec fn states(self) -> Seq<TaskState> {
        self@.map_values(|t: Scheduled<F>| t@)
    }

    /// A runner for several tasks, kept in the given order.
    pub fn new(tasks: Vec<Scheduled<F>>) -> (r: TaskRunner<F>)
        ensures
            r@ == tasks@,
    {
        TaskRunner { tasks }
    }

    /// A runner for a single task.
    pub fn one(task: Scheduled<F>) -> (r: TaskRunner<F>)
        ensures
            r@ == seq![task],
    {
        let mut tasks: Vec<Scheduled<F>> = Vec::new();
        tasks.push(task);
        proof {
            assert(tasks@ =~= seq![task]);
        }
        TaskRunner { tasks }
    }

    /// The number of tasks held.
    pub fn len(&self) -> (r: usize)
        ensures
            r == self@.len(),
    {
        self.tasks.len()
    }

    /// The task at position `i`.
    pub fn task(&self, i: usize) -> (r: &Scheduled<F>)
        requires
            i < self@.len(),
        ensures
            *r == self@[i as int],
    {
        &self.tasks[i]
    }

    /// First half of the pass at `now`: every due task gets one run fewer
    /// and its next occurrence counted from `now`; the others are left as
    /// they are. Returns the positions of the due tasks, in order: their
    /// actions are the ones to run in this pass.
    pub fn begin_pass(&mut self, now: Timestamp) -> (fired: Vec<usize>)
        ensures
            final(self)@.len() == old(self)@.len(),
            forall|i: int|
                0 <= i < old(self)@.len() ==> {
                    &&& #[trigger] final(self)@[i]@ == old(self)@[i]@.stepped(now)
                    &&& final(self)@[i].spec_action() == old(self)@[i].spec_action()
                },
            fired@ == due_positions(old(self).states(), now, old(self)@.len() as int),
    {
        let mut fired: Vec<usize> = Vec::new();
        let n = self.tasks.len();
        let mut i: usize = 0;
        while i < n
            invariant
                n == old(self)@.len(),
                self@.len() == n,
                0 <= i <= n,
                forall|j: int|
                    0 <= j < i ==> {
                        &&& #[trigger] self@[j]@ == old(self)@[j]@.stepped(now)
                        &&& self@[j].spec_action() == old(self)@[j].spec_action()
                    },
                forall|j: int| i <= j < n ==> #[trigger] self@[j] == old(self)@[j],
                fired@ == due_positions(old(self).states(), now, i as int),
            decreases n - i,
        {
            let state = self.tasks[i].state;
            if state.due(now) {
                let task = &mut self.tasks[i];
                task.state = state.fire(now);
                fired.push(i);
            }
            i = i + 1;
        }
        fired
    }

    /// Second half of a pass: removes every spent task (its limit used up,
    /// or no next occurrence), keeping the others in their order.
    pub fn end_pass(&mut self)
        ensures
            final(self)@ == old(self)@.filter(|t: Scheduled<F>| !t@.is_spent()),
    {
        let ghost keep = |t: Scheduled<F>| !t@.is_spent();
        let ghost all = old(self)@;
        let total = self.tasks.len();
        let mut i: usize = 0;
        let mut j: usize = 0;
        while i < self.tasks.len()
            invariant
                keep == (|t: Scheduled<F>| !t@.is_spent()),
                all == old(self)@,
                total == all.len(),
                0 <= j <= all.len(),
                i == all.subrange(0, j as int).filter(keep).len(),
                self@ == all.subrange(0, j as int).filter(keep) + all.subrange(j as int, all.len() as int),
            decreases all.len() - j,
        {
            proof {
                all.subrange(0, j as int).lemma_filter_len(keep);
                reveal(Seq::filter);
                assert(all.subrange(0, j + 1).drop_last() =~= all.subrange(0, j as int));
                assert(self@[i as int] == all[j as int]);
                assert(all.subrange(0, j + 1).last() == all[j as int]);
                assert(all.subrange(j as int, all.len() as int) =~= seq![all[j as int]] + all.subrange(j + 1, all.len() as int));
            }
            let ghost pre = all.subrange(0, j as int).filter(keep);
            let spent = self.tasks[i].state.spent();
            proof {
                assert(spent == !keep(all[j as int]));
            }
            if spent {
                self.tasks.remove(i);
                proof {
                    assert(!keep(all[j as int]));
                    assert(all.subrange(0, j + 1).filter(keep) == pre);
                    assert(self@ =~= all.subrange(0, j + 1).filter(keep) + all.subrange(j + 1, all.len() as int));
                }
            } else {
                i = i + 1;
                proof {
                    assert(keep(all[j as int]));
                    assert(all.subrange(0, j + 1).filter(keep) == pre.push(all[j as int]));
                    assert(self@ =~= all.subrange(0, j + 1).filter(keep) + all.subrange(j + 1, all.len() as int));
                }
            }
            j = j + 1;
        }
        proof {
            assert(all.subrange(j as int, all.len() as int).len() == 0);
            assert(j == all.len());
            assert(all.subrange(0, j as int) =~= all);
            assert(self@ =~= all.filter(keep));
        }
    }
}

} // verus!
