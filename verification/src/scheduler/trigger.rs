//! What to do about the due times of a job at a moment.
use vstd::prelude::*;
use crate::error::{ErrorView, SchedulerError};
use crate::model::job::{Job, JobView, TriggerSource};
use crate::model::schedule::MissedRunPolicy;
use crate::model::state::{JobState, JobStateView};
use crate::scheduler::trigger_math::{
    self, advance_state_to, inspect_due_window, is_missed, try_consume_due_summary,
};
use crate::time::UtcTime;
use crate::zone::Timezone;

verus! {

/// What a [`PendingTrigger`] says; the instant in nanoseconds.
pub struct TriggerView {
    pub scheduled_at: int,
    pub catch_up: bool,
    pub trigger_count: nat,
    pub source: TriggerSource,
}

/// A run that is to be started.
#[derive(Debug, Clone, Copy, PartialEq, Eq)]
pub struct PendingTrigger {
    pub scheduled_at: UtcTime,
    pub catch_up: bool,
    pub trigger_count: u32,
    pub source: TriggerSource,
}

impl View for PendingTrigger {
    type V = TriggerView;

    open spec fn view(&self) -> TriggerView {
        TriggerView {
            scheduled_at: self.scheduled_at@,
            catch_up: self.catch_up,
            trigger_count: self.trigger_count as nat,
            source: self.source,
        }
    }
}

/// What a [`TriggerDecision`] says.
pub enum DecisionView {
    Idle,
    StateAdvanced,
    Trigger(TriggerView),
}

#[derive(Debug, Clone, Copy, PartialEq, Eq)]
pub enum TriggerDecision {
    Idle,
    StateAdvanced,
    Trigger(PendingTrigger),
}

impl View for TriggerDecision {
    type V = DecisionView;

    open spec fn view(&self) -> DecisionView {
        match self {
            TriggerDecision::Idle => DecisionView::Idle,
            TriggerDecision::StateAdvanced => DecisionView::StateAdvanced,
            TriggerDecision::Trigger(trigger) => DecisionView::Trigger(trigger@),
        }
    }
}

pub open spec fn decision_result(
    result: Result<TriggerDecision, SchedulerError>,
) -> Result<DecisionView, ErrorView> {
    match result {
        Ok(decision) => Ok(decision@),
        Err(error) => Err(error@),
    }
}

/// A scheduled trigger that leaves a state behind.
pub open spec fn scheduled_trigger(
    scheduled_at: int,
    catch_up: bool,
    state: JobStateView,
) -> DecisionView {
    DecisionView::Trigger(
        TriggerView {
            scheduled_at,
            catch_up,
            trigger_count: state.trigger_count,
            source: TriggerSource::Scheduled,
        },
    )
}

/// What is decided about the due times of a job, and the state that it leaves.
/// With nothing due the job is idle. Skipping drops what was missed, and
/// triggers only for a single due time that is not late. Catching up triggers
/// once, for the last due time. Replaying triggers for the first.
pub open spec fn trigger_outcome(
    job: JobView,
    state: JobStateView,
    now: int,
    zone: Seq<char>,
) -> (Result<DecisionView, ErrorView>, JobStateView) {
    if !trigger_math::is_due(job, state, now, zone, 0) {
        (Ok(DecisionView::Idle), state)
    } else if job.missed_run_policy == MissedRunPolicy::ReplayAll {
        match trigger_math::nth_due(job, state, zone, 1) {
            Err(error) => (Err(error), state),
            Ok(_) => {
                let next = trigger_math::consumed_state(job, state, zone, 1);
                let first = state.next_run_at->0;
                (
                    Ok(
                        scheduled_trigger(
                            first,
                            trigger_math::is_due(job, state, now, zone, 1) || trigger_math::missed(
                                first,
                                now,
                            ),
                            next,
                        ),
                    ),
                    next,
                )
            },
        }
    } else {
        let next = trigger_math::consumed_state(
            job,
            state,
            zone,
            trigger_math::due_count(job, state, now, zone),
        );
        match trigger_math::due_summary(job, state, now, zone) {
            Err(error) => (Err(error), next),
            Ok(None) => (Ok(DecisionView::Idle), next),
            Ok(Some(summary)) => if job.missed_run_policy == MissedRunPolicy::Skip {
                if summary.count == 1 && !trigger_math::missed(summary.first_due, now) {
                    (Ok(scheduled_trigger(summary.first_due, false, next)), next)
                } else {
                    (Ok(DecisionView::StateAdvanced), next)
                }
            } else {
                (
                    Ok(
                        scheduled_trigger(
                            summary.last_due,
                            summary.count > 1 || trigger_math::missed(summary.last_due, now),
                            next,
                        ),
                    ),
                    next,
                )
            },
        }
    }
}

/// Whether the trigger count can hold the due times that are to be consumed.
pub open spec fn outcome_fits(
    job: JobView,
    state: JobStateView,
    now: int,
    zone: Seq<char>,
) -> bool {
    if !trigger_math::is_due(job, state, now, zone, 0) {
        true
    } else if job.missed_run_policy == MissedRunPolicy::ReplayAll {
        state.trigger_count < u32::MAX
    } else {
        trigger_math::due_count_fits(job, state, now, zone)
    }
}

/// A decision is only made for a due time: whatever is triggered was due at or
/// before `now`, and after a run was decided on by skipping or catching up the
/// next due time is in the future.
pub proof fn law_triggers_only_due(job: JobView, state: JobStateView, now: int, zone: Seq<char>)
    requires
        outcome_fits(job, state, now, zone),
    ensures
        trigger_outcome(job, state, now, zone).0 matches Ok(DecisionView::Trigger(trigger))
            ==> trigger.scheduled_at <= now && trigger.source == TriggerSource::Scheduled
            && trigger.trigger_count > state.trigger_count,
        job.missed_run_policy != MissedRunPolicy::ReplayAll && trigger_outcome(
            job,
            state,
            now,
            zone,
        ).0 is Ok ==> (trigger_outcome(job, state, now, zone).1.next_run_at matches Some(next)
            ==> next > now),
{
    if trigger_math::is_due(job, state, now, zone, 0) && job.missed_run_policy
        != MissedRunPolicy::ReplayAll {
        let n = trigger_math::due_count(job, state, now, zone);
        assert(trigger_math::is_due_count(job, state, now, zone, n));
        if trigger_math::due_summary(job, state, now, zone) is Ok {
            trigger_math::law_consumed_all_due(job, state, now, zone);
        }
    }
}

/// Skipping never runs late: what it triggers is no more than 25 milliseconds
/// past, and never a catch-up.
pub proof fn law_skip_drops_missed(job: JobView, state: JobStateView, now: int, zone: Seq<char>)
    requires
        job.missed_run_policy == MissedRunPolicy::Skip,
    ensures
        trigger_outcome(job, state, now, zone).0 matches Ok(DecisionView::Trigger(trigger))
            ==> !trigger.catch_up && !trigger_math::missed(trigger.scheduled_at, now),
{
    if trigger_math::is_due(job, state, now, zone, 0) {
        let n = trigger_math::due_count(job, state, now, zone);
    }
}

/// Replaying consumes exactly one due time, the oldest, so that repeated
/// decisions replay every one in order.
pub proof fn law_replay_in_order(job: JobView, state: JobStateView, now: int, zone: Seq<char>)
    requires
        job.missed_run_policy == MissedRunPolicy::ReplayAll,
        trigger_math::is_due(job, state, now, zone, 0),
        trigger_math::nth_due(job, state, zone, 1) is Ok,
    ensures
        trigger_outcome(job, state, now, zone).0 matches Ok(DecisionView::Trigger(trigger))
            && Some(trigger.scheduled_at) == state.next_run_at,
        trigger_outcome(job, state, now, zone).1.trigger_count == state.trigger_count + 1,
        Ok::<Option<int>, ErrorView>(trigger_outcome(job, state, now, zone).1.next_run_at)
            == trigger_math::nth_due(job, state, zone, 1),
        forall|k: nat|
            trigger_math::nth_due(job, trigger_outcome(job, state, now, zone).1, zone, k)
                == #[trigger] trigger_math::nth_due(job, state, zone, k + 1),
{
    let next = trigger_outcome(job, state, now, zone).1;
    assert forall|k: nat|
        trigger_math::nth_due(job, next, zone, k) == #[trigger] trigger_math::nth_due(
            job,
            state,
            zone,
            k + 1,
        ) by {
        lemma_shifted_walk(job, state, next, zone, k);
    }
}

proof fn lemma_shifted_walk(
    job: JobView,
    state: JobStateView,
    next: JobStateView,
    zone: Seq<char>,
    k: nat,
)
    requires
        next.trigger_count == state.trigger_count + 1,
        trigger_math::nth_due(job, state, zone, 1) == Ok::<Option<int>, ErrorView>(
            next.next_run_at,
        ),
    ensures
        trigger_math::nth_due(job, next, zone, k) == trigger_math::nth_due(job, state, zone, k + 1),
    decreases k,
{
    if k > 0 {
        lemma_shifted_walk(job, state, next, zone, (k - 1) as nat);
        assert(next.trigger_count + k == state.trigger_count + (k + 1));
    }
}

/// Catching up triggers once, however many due times were missed.
pub proof fn law_catch_up_once(job: JobView, state: JobStateView, now: int, zone: Seq<char>)
    requires
        job.missed_run_policy == MissedRunPolicy::CatchUpOnce,
        trigger_math::is_due(job, state, now, zone, 0),
        trigger_math::due_count_fits(job, state, now, zone),
        trigger_math::due_summary(job, state, now, zone) is Ok,
    ensures
        trigger_outcome(job, state, now, zone).0 matches Ok(DecisionView::Trigger(trigger))
            && Ok::<Option<int>, ErrorView>(Some(trigger.scheduled_at)) == trigger_math::nth_due(
            job,
            state,
            zone,
            (trigger_math::due_count(job, state, now, zone) - 1) as nat,
        ),
        trigger_outcome(job, state, now, zone).1.trigger_count == state.trigger_count
            + trigger_math::due_count(job, state, now, zone),
{
    let n = trigger_math::due_count(job, state, now, zone);
    assert(trigger_math::is_due_count(job, state, now, zone, n));
    assert(n > 0);
    assert(trigger_math::is_due(job, state, now, zone, (n - 1) as nat));
}

/// Decides what to do about the due times of a job at `now`, and advances its
/// state. `None`, with the state as it was, means that the trigger count
/// cannot hold the due times that are to be consumed.
pub fn try_next_trigger(
    job: &Job,
    state: &mut JobState,
    now: UtcTime,
    timezone: &Timezone,
) -> (r: Option<Result<TriggerDecision, SchedulerError>>)
    ensures
        match r {
            None => !outcome_fits(job@, old(state)@, now@, timezone@) && *final(state) == *old(
                state,
            ),
            Some(result) => outcome_fits(job@, old(state)@, now@, timezone@) && (
                decision_result(result),
                final(state)@,
            ) == trigger_outcome(job@, old(state)@, now@, timezone@),
        },
{
    let next_run_at = match state.next_run_at {
        Some(value) => value,
        None => {
            return Some(Ok(TriggerDecision::Idle));
        },
    };
    if now.earlier_than(&next_run_at) {
        return Some(Ok(TriggerDecision::Idle));
    }
    let ghost before = state@;
    assert(trigger_math::is_due(job@, before, now@, timezone@, 0));
    match job.missed_run_policy {
        MissedRunPolicy::ReplayAll => {
            if state.trigger_count == u32::MAX {
                return None;
            }
            let window = match inspect_due_window(job, state, now, timezone) {
                Err(error) => {
                    return Some(Err(error));
                },
                Ok(None) => {
                    return Some(Ok(TriggerDecision::Idle));
                },
                Ok(Some(window)) => window,
            };
            let first_due = window.first_due;
            reveal_with_fuel(trigger_math::nth_due, 2);
            match advance_state_to(job, state, first_due, timezone) {
                Err(error) => Some(Err(error)),
                Ok(()) => Some(
                    Ok(
                        TriggerDecision::Trigger(
                            PendingTrigger {
                                scheduled_at: first_due,
                                catch_up: window.has_multiple || is_missed(first_due, now),
                                trigger_count: state.trigger_count,
                                source: TriggerSource::Scheduled,
                            },
                        ),
                    ),
                ),
            }
        },
        MissedRunPolicy::Skip => match try_consume_due_summary(job, state, now, timezone) {
            None => None,
            Some(Err(error)) => Some(Err(error)),
            Some(Ok(None)) => Some(Ok(TriggerDecision::Idle)),
            Some(Ok(Some(summary))) => {
                if summary.count == 1 && !is_missed(summary.first_due, now) {
                    Some(
                        Ok(
                            TriggerDecision::Trigger(
                                PendingTrigger {
                                    scheduled_at: summary.first_due,
                                    catch_up: false,
                                    trigger_count: state.trigger_count,
                                    source: TriggerSource::Scheduled,
                                },
                            ),
                        ),
                    )
                } else {
                    Some(Ok(TriggerDecision::StateAdvanced))
                }
            },
        },
        MissedRunPolicy::CatchUpOnce => match try_consume_due_summary(job, state, now, timezone) {
            None => None,
            Some(Err(error)) => Some(Err(error)),
            Some(Ok(None)) => Some(Ok(TriggerDecision::Idle)),
            Some(Ok(Some(summary))) => {
                let scheduled_at = if summary.count == 1 {
                    summary.first_due
                } else {
                    summary.last_due
                };
                Some(
                    Ok(
                        TriggerDecision::Trigger(
                            PendingTrigger {
                                scheduled_at,
                                catch_up: summary.count > 1 || is_missed(scheduled_at, now),
                                trigger_count: state.trigger_count,
                                source: TriggerSource::Scheduled,
                            },
                        ),
                    ),
                )
            },
        },
    }
}

/// Decides what to do about the due times of a job at `now`, and advances its
/// state.
pub fn next_trigger(
    job: &Job,
    state: &mut JobState,
    now: UtcTime,
    timezone: &Timezone,
) -> (r: Result<TriggerDecision, SchedulerError>)
    requires
        outcome_fits(job@, old(state)@, now@, timezone@),
    ensures
        (decision_result(r), final(state)@) == trigger_outcome(
            job@,
            old(state)@,
            now@,
            timezone@,
        ),
{
    try_next_trigger(job, state, now, timezone).unwrap()
}

/// With nothing due nothing happens: the job is idle, and its state stays.
pub proof fn law_idle_until_due(job: JobView, state: JobStateView, now: int, zone: Seq<char>)
    requires
        state.next_run_at is None || state.next_run_at->0 > now,
    ensures
        trigger_outcome(job, state, now, zone) == (
            Ok::<DecisionView, ErrorView>(DecisionView::Idle),
            state,
        ),
        outcome_fits(job, state, now, zone),
{
}

proof fn lemma_due_walk(
    job: JobView,
    state: JobStateView,
    now: int,
    zone: Seq<char>,
    times: Seq<int>,
)
    requires
        trigger_math::is_walk(job, state, zone, times),
        forall|i: int| 0 <= i < times.len() ==> #[trigger] times[i] <= now,
        trigger_math::next_due(
            job,
            times.last(),
            state.trigger_count + times.len(),
            zone,
        ) matches Ok(Some(next)) ==> next > now,
    ensures
        trigger_math::is_due_count(job, state, now, zone, times.len()),
        trigger_math::due_count(job, state, now, zone) == times.len(),
        trigger_math::is_due(job, state, now, zone, 0),
        trigger_math::nth_due(job, state, zone, times.len()) == trigger_math::next_due(
            job,
            times.last(),
            state.trigger_count + times.len(),
            zone,
        ),
        trigger_math::nth_due(job, state, zone, (times.len() - 1) as nat) == Ok::<
            Option<int>,
            ErrorView,
        >(Some(times.last())),
{
    let n = times.len();
    assert forall|k: nat| k < n implies #[trigger] trigger_math::is_due(job, state, now, zone, k) by {
        trigger_math::lemma_walk(job, state, zone, times, k);
        assert(times[k as int] <= now);
    }
    trigger_math::lemma_walk(job, state, zone, times, n);
    trigger_math::lemma_walk(job, state, zone, times, (n - 1) as nat);
    trigger_math::lemma_due_count_unique(job, state, now, zone, n);
}

/// What is decided where the due times up to `now` are `times` and the one after
/// them is `after`. Skipping and catching up consume them all. Skipping triggers
/// where there is one only and it is no more than 25 milliseconds past, whether
/// or not anything is due afterwards, and otherwise drops them. Catching up
/// triggers for the last one, as a catch-up where there were several or it is
/// late.
pub proof fn law_due_times_consumed(
    job: JobView,
    state: JobStateView,
    now: int,
    zone: Seq<char>,
    times: Seq<int>,
    after: Option<int>,
)
    requires
        job.missed_run_policy != MissedRunPolicy::ReplayAll,
        trigger_math::is_walk(job, state, zone, times),
        forall|i: int| 0 <= i < times.len() ==> #[trigger] times[i] <= now,
        trigger_math::next_due(
            job,
            times.last(),
            state.trigger_count + times.len(),
            zone,
        ) == Ok::<Option<int>, ErrorView>(after),
        after is None || after->0 > now,
        crate::time::in_calendar(now),
        crate::time::in_calendar(times[0]),
        crate::time::in_calendar(times.last()),
    ensures
        trigger_outcome(job, state, now, zone).1 == (JobStateView {
            trigger_count: state.trigger_count + times.len(),
            next_run_at: after,
            ..state
        }),
        job.missed_run_policy == MissedRunPolicy::Skip && times.len() == 1 && now - times[0]
            <= 25_000_000 ==> trigger_outcome(job, state, now, zone).0 == Ok::<
            DecisionView,
            ErrorView,
        >(
            DecisionView::Trigger(
                TriggerView {
                    scheduled_at: times[0],
                    catch_up: false,
                    trigger_count: state.trigger_count + 1,
                    source: TriggerSource::Scheduled,
                },
            ),
        ),
        job.missed_run_policy == MissedRunPolicy::Skip && (times.len() > 1 || now - times[0]
            > 25_000_000) ==> trigger_outcome(job, state, now, zone).0 == Ok::<
            DecisionView,
            ErrorView,
        >(DecisionView::StateAdvanced),
        job.missed_run_policy == MissedRunPolicy::CatchUpOnce ==> trigger_outcome(
            job,
            state,
            now,
            zone,
        ).0 == Ok::<DecisionView, ErrorView>(
            DecisionView::Trigger(
                TriggerView {
                    scheduled_at: times.last(),
                    catch_up: times.len() > 1 || now - times.last() > 25_000_000,
                    trigger_count: state.trigger_count + times.len(),
                    source: TriggerSource::Scheduled,
                },
            ),
        ),
        state.trigger_count + times.len() <= u32::MAX ==> outcome_fits(job, state, now, zone),
{
    lemma_due_walk(job, state, now, zone, times);
}

/// Replaying triggers for the oldest due time and goes on to the next one, as a
/// catch-up where another one is due as well or it is late itself.
pub proof fn law_replay_takes_oldest(
    job: JobView,
    state: JobStateView,
    now: int,
    zone: Seq<char>,
    first: int,
    after: Option<int>,
)
    requires
        job.missed_run_policy == MissedRunPolicy::ReplayAll,
        state.next_run_at == Some(first),
        first <= now,
        trigger_math::next_due(job, first, state.trigger_count + 1, zone) == Ok::<
            Option<int>,
            ErrorView,
        >(after),
        crate::time::in_calendar(now),
        crate::time::in_calendar(first),
    ensures
        trigger_outcome(job, state, now, zone) == (
            Ok::<DecisionView, ErrorView>(
                DecisionView::Trigger(
                    TriggerView {
                        scheduled_at: first,
                        catch_up: (after is Some && after->0 <= now) || now - first > 25_000_000,
                        trigger_count: state.trigger_count + 1,
                        source: TriggerSource::Scheduled,
                    },
                ),
            ),
            JobStateView {
                trigger_count: state.trigger_count + 1,
                next_run_at: after,
                ..state
            },
        ),
        state.trigger_count < u32::MAX ==> outcome_fits(job, state, now, zone),
{
    reveal_with_fuel(trigger_math::nth_due, 2);
}

/// A due time that cannot be computed is an error: for skipping and catching up
/// once everything before it was consumed, the last due time staying in place,
/// and for replaying at once, with the state as it was.
pub proof fn law_unknown_due_time_is_error(
    job: JobView,
    state: JobStateView,
    now: int,
    zone: Seq<char>,
    times: Seq<int>,
    error: ErrorView,
)
    requires
        trigger_math::is_walk(job, state, zone, times),
        forall|i: int| 0 <= i < times.len() ==> #[trigger] times[i] <= now,
        trigger_math::next_due(
            job,
            times.last(),
            state.trigger_count + times.len(),
            zone,
        ) == Err::<Option<int>, ErrorView>(error),
    ensures
        job.missed_run_policy != MissedRunPolicy::ReplayAll ==> trigger_outcome(
            job,
            state,
            now,
            zone,
        ) == (
            Err::<DecisionView, ErrorView>(error),
            JobStateView {
                trigger_count: state.trigger_count + times.len(),
                next_run_at: Some(times.last()),
                ..state
            },
        ),
        job.missed_run_policy == MissedRunPolicy::ReplayAll && times.len() == 1 ==> trigger_outcome(
            job,
            state,
            now,
            zone,
        ) == (Err::<DecisionView, ErrorView>(error), state),
{
    lemma_due_walk(job, state, now, zone, times);
}

/// A call under the policy to skip, with one due time up to now that is no more
/// than 25 milliseconds past, triggers for it, whether or not anything is due
/// afterwards; the state counts it and goes on to what is due afterwards.
pub proof fn law_call_skip_on_time(
    job: &Job,
    state: &mut JobState,
    now: UtcTime,
    timezone: &Timezone,
    r: Option<Result<TriggerDecision, SchedulerError>>,
    first: UtcTime,
    after: Option<int>,
)
    requires
        call_ensures(try_next_trigger, (job, state, now, timezone), r),
        job.missed_run_policy == MissedRunPolicy::Skip,
        old(state).next_run_at == Some(first),
        old(state).trigger_count < u32::MAX,
        first@ <= now@ <= first@ + 25_000_000,
        trigger_math::next_due(
            job@,
            first@,
            (old(state).trigger_count + 1) as nat,
            timezone@,
        ) == Ok::<Option<int>, ErrorView>(after),
        after is None || after->0 > now@,
        crate::time::in_calendar(now@),
        crate::time::in_calendar(first@),
    ensures
        r matches Some(Ok(TriggerDecision::Trigger(trigger))) && {
            &&& trigger.scheduled_at@ == first@
            &&& !trigger.catch_up
            &&& trigger.trigger_count == old(state).trigger_count + 1
            &&& trigger.source == TriggerSource::Scheduled
        },
        final(state)@ == (JobStateView {
            trigger_count: old(state)@.trigger_count + 1,
            next_run_at: after,
            ..old(state)@
        }),
{
    let times = seq![first@];
    law_due_times_consumed(job@, old(state)@, now@, timezone@, times, after);
}

/// A call under the policy to skip drops what is late, and several due times at
/// once, and only moves the state on.
pub proof fn law_call_skip_late(
    job: &Job,
    state: &mut JobState,
    now: UtcTime,
    timezone: &Timezone,
    r: Option<Result<TriggerDecision, SchedulerError>>,
    times: Seq<int>,
    after: Option<int>,
)
    requires
        call_ensures(try_next_trigger, (job, state, now, timezone), r),
        job.missed_run_policy == MissedRunPolicy::Skip,
        trigger_math::is_walk(job@, old(state)@, timezone@, times),
        old(state).trigger_count + times.len() <= u32::MAX,
        forall|i: int| 0 <= i < times.len() ==> #[trigger] times[i] <= now@,
        times.len() > 1 || now@ > times[0] + 25_000_000,
        trigger_math::next_due(
            job@,
            times.last(),
            (old(state).trigger_count + times.len()) as nat,
            timezone@,
        ) == Ok::<Option<int>, ErrorView>(after),
        after is None || after->0 > now@,
        crate::time::in_calendar(now@),
        crate::time::in_calendar(times[0]),
        crate::time::in_calendar(times.last()),
    ensures
        r matches Some(Ok(TriggerDecision::StateAdvanced)),
        final(state)@ == (JobStateView {
            trigger_count: old(state)@.trigger_count + times.len(),
            next_run_at: after,
            ..old(state)@
        }),
{
    law_due_times_consumed(job@, old(state)@, now@, timezone@, times, after);
}

/// A call under the policy to catch up triggers once, for the last due time, as a
/// catch-up where there were several or it is late.
pub proof fn law_call_catch_up(
    job: &Job,
    state: &mut JobState,
    now: UtcTime,
    timezone: &Timezone,
    r: Option<Result<TriggerDecision, SchedulerError>>,
    times: Seq<int>,
    after: Option<int>,
)
    requires
        call_ensures(try_next_trigger, (job, state, now, timezone), r),
        job.missed_run_policy == MissedRunPolicy::CatchUpOnce,
        trigger_math::is_walk(job@, old(state)@, timezone@, times),
        old(state).trigger_count + times.len() <= u32::MAX,
        forall|i: int| 0 <= i < times.len() ==> #[trigger] times[i] <= now@,
        trigger_math::next_due(
            job@,
            times.last(),
            (old(state).trigger_count + times.len()) as nat,
            timezone@,
        ) == Ok::<Option<int>, ErrorView>(after),
        after is None || after->0 > now@,
        crate::time::in_calendar(now@),
        crate::time::in_calendar(times[0]),
        crate::time::in_calendar(times.last()),
    ensures
        r matches Some(Ok(TriggerDecision::Trigger(trigger))) && {
            &&& trigger.scheduled_at@ == times.last()
            &&& trigger.catch_up <==> times.len() > 1 || now@ > times.last() + 25_000_000
            &&& trigger.trigger_count == old(state).trigger_count + times.len()
            &&& trigger.source == TriggerSource::Scheduled
        },
        final(state)@ == (JobStateView {
            trigger_count: old(state)@.trigger_count + times.len(),
            next_run_at: after,
            ..old(state)@
        }),
{
    law_due_times_consumed(job@, old(state)@, now@, timezone@, times, after);
}

/// A call under the policy to replay triggers for the oldest due time alone.
pub proof fn law_call_replay(
    job: &Job,
    state: &mut JobState,
    now: UtcTime,
    timezone: &Timezone,
    r: Option<Result<TriggerDecision, SchedulerError>>,
    first: UtcTime,
    after: Option<int>,
)
    requires
        call_ensures(try_next_trigger, (job, state, now, timezone), r),
        job.missed_run_policy == MissedRunPolicy::ReplayAll,
        old(state).next_run_at == Some(first),
        old(state).trigger_count < u32::MAX,
        first@ <= now@,
        trigger_math::next_due(
            job@,
            first@,
            (old(state).trigger_count + 1) as nat,
            timezone@,
        ) == Ok::<Option<int>, ErrorView>(after),
        crate::time::in_calendar(now@),
        crate::time::in_calendar(first@),
    ensures
        r matches Some(Ok(TriggerDecision::Trigger(trigger))) && {
            &&& trigger.scheduled_at@ == first@
            &&& trigger.catch_up <==> (after is Some && after->0 <= now@) || now@ > first@
                + 25_000_000
            &&& trigger.trigger_count == old(state).trigger_count + 1
            &&& trigger.source == TriggerSource::Scheduled
        },
        final(state)@ == (JobStateView {
            trigger_count: old(state)@.trigger_count + 1,
            next_run_at: after,
            ..old(state)@
        }),
{
    law_replay_takes_oldest(job@, old(state)@, now@, timezone@, first@, after);
}

/// A call with nothing due decides nothing and changes nothing.
pub proof fn law_call_idle(
    job: &Job,
    state: &mut JobState,
    now: UtcTime,
    timezone: &Timezone,
    r: Option<Result<TriggerDecision, SchedulerError>>,
)
    requires
        call_ensures(try_next_trigger, (job, state, now, timezone), r),
        old(state).next_run_at is None || old(state).next_run_at->0@ > now@,
    ensures
        r matches Some(Ok(TriggerDecision::Idle)),
        final(state)@ == old(state)@,
{
    law_idle_until_due(job@, old(state)@, now@, timezone@);
}

/// Where the due times up to now are `times` and the one after them is `after`,
/// all of them are consumed and summed up: the first, the last, and how many.
pub proof fn law_call_summary(
    job: &Job,
    state: &mut JobState,
    now: UtcTime,
    timezone: &Timezone,
    r: Option<Result<Option<trigger_math::DueSummary>, SchedulerError>>,
    times: Seq<int>,
    after: Option<int>,
)
    requires
        call_ensures(try_consume_due_summary, (job, state, now, timezone), r),
        trigger_math::is_walk(job@, old(state)@, timezone@, times),
        old(state).trigger_count + times.len() <= u32::MAX,
        forall|i: int| 0 <= i < times.len() ==> #[trigger] times[i] <= now@,
        trigger_math::next_due(
            job@,
            times.last(),
            (old(state).trigger_count + times.len()) as nat,
            timezone@,
        ) == Ok::<Option<int>, ErrorView>(after),
        after is None || after->0 > now@,
    ensures
        r matches Some(Ok(Some(summary))) && summary.first_due@ == times[0] && summary.last_due@
            == times.last() && summary.count == times.len(),
        final(state)@ == (JobStateView {
            trigger_count: old(state)@.trigger_count + times.len(),
            next_run_at: after,
            ..old(state)@
        }),
{
    lemma_due_walk(job@, old(state)@, now@, timezone@, times);
    assert(trigger_math::due_count_fits(job@, old(state)@, now@, timezone@));
    if let Some(Ok(Some(summary))) = r {
        assert(summary@.count == summary.count as nat);
    }
}

/// With nothing due nothing is consumed, and there is nothing to sum up or to
/// look at.
pub proof fn law_call_nothing_to_consume(
    job: &Job,
    state: &mut JobState,
    now: UtcTime,
    timezone: &Timezone,
    r: Option<Result<Option<trigger_math::DueSummary>, SchedulerError>>,
    window: Result<Option<trigger_math::DueWindow>, SchedulerError>,
)
    requires
        call_ensures(try_consume_due_summary, (job, state, now, timezone), r),
        call_ensures(inspect_due_window, (job, &*old(state), now, timezone), window),
        old(state).next_run_at is None || old(state).next_run_at->0@ > now@,
    ensures
        r matches Some(Ok(None)),
        window matches Ok(None),
        final(state)@ == old(state)@,
{
    assert(trigger_math::is_due_count(job@, old(state)@, now@, timezone@, 0));
    trigger_math::lemma_due_count_unique(job@, old(state)@, now@, timezone@, 0);
    assert(trigger_math::due_count_fits(job@, old(state)@, now@, timezone@));
}

/// Looking at what is due sees the oldest due time, and whether the one after it
/// is due as well.
pub proof fn law_call_due_window(
    job: &Job,
    state: &JobState,
    now: UtcTime,
    timezone: &Timezone,
    first: UtcTime,
    after: Option<int>,
    r: Result<Option<trigger_math::DueWindow>, SchedulerError>,
)
    requires
        call_ensures(inspect_due_window, (job, state, now, timezone), r),
        state.next_run_at == Some(first),
        first@ <= now@,
        state.trigger_count < u32::MAX,
        trigger_math::next_due(
            job@,
            first@,
            (state.trigger_count + 1) as nat,
            timezone@,
        ) == Ok::<Option<int>, ErrorView>(after),
    ensures
        r matches Ok(Some(window)) && window.first_due@ == first@ && (window.has_multiple <==> after
            is Some && after->0 <= now@),
{
    reveal_with_fuel(trigger_math::nth_due, 2);
}

/// The due times up to now are collected in their order, none left out.
pub proof fn law_call_collect(
    job: &Job,
    state: &JobState,
    now: UtcTime,
    timezone: &Timezone,
    r: Option<Result<Vec<UtcTime>, SchedulerError>>,
    times: Seq<int>,
    after: Option<int>,
)
    requires
        call_ensures(trigger_math::collect_due_times, (job, state, now, timezone), r),
        trigger_math::is_walk(job@, state@, timezone@, times),
        state.trigger_count + times.len() <= u32::MAX,
        forall|i: int| 0 <= i < times.len() ==> #[trigger] times[i] <= now@,
        trigger_math::next_due(
            job@,
            times.last(),
            (state.trigger_count + times.len()) as nat,
            timezone@,
        ) == Ok::<Option<int>, ErrorView>(after),
        after is None || after->0 > now@,
    ensures
        r matches Some(Ok(found)) && found@.len() == times.len() && forall|k: int|
            0 <= k < times.len() ==> (#[trigger] found@[k])@ == times[k],
{
    lemma_due_walk(job@, state@, now@, timezone@, times);
    assert(trigger_math::due_count_fits(job@, state@, now@, timezone@));
    match r {
        None => {},
        Some(Err(error)) => {
            let n = choose|n: nat|
                trigger_math::is_due_count(job@, state@, now@, timezone@, n)
                    && #[trigger] trigger_math::nth_due(job@, state@, timezone@, n) == Err::<
                    Option<int>,
                    ErrorView,
                >(error@);
            trigger_math::lemma_due_count_unique(job@, state@, now@, timezone@, n);
        },
        Some(Ok(found)) => {
            trigger_math::lemma_due_count_unique(job@, state@, now@, timezone@, found@.len());
            assert forall|k: int| 0 <= k < times.len() implies (#[trigger] found@[k])@
                == times[k] by {
                trigger_math::lemma_walk(job@, state@, timezone@, times, k as nat);
            }
        },
    }
}

} // verus!
