//! Due times of jobs, one after the other.
use vstd::prelude::*;
use crate::error::{self, ErrorView, SchedulerError};
use crate::model::job::{Job, JobView};
use crate::model::cron_schedule;
use crate::model::schedule::{Schedule, ScheduleView, TimeWindowAlignment};
use crate::model::state::{JobState, JobStateView};
use crate::model::time_window;
use crate::scheduler::boundaries;
use crate::scheduler::grouped_cron;
use crate::scheduler::interval_phase;
use crate::scheduler::time_window_alignment::{self, align_to_window};
use crate::scheduler::windowed_interval::{self, advanced_by};
use crate::time::{self, duration_to_delta, Duration, UtcTime};
use crate::zone::Timezone;

verus! {

/// How late a run may start without counting as missed: 25 milliseconds.
pub const MISSED_TOLERANCE_NANOS: i128 = 25_000_000;

/// Schedules whose due times come from intervals.
pub open spec fn is_interval_style(schedule: ScheduleView) -> bool {
    match schedule {
        ScheduleView::Interval(_) => true,
        ScheduleView::StaggeredInterval { .. } => true,
        ScheduleView::GroupedInterval { .. } => true,
        ScheduleView::WindowedInterval(_) => true,
        _ => false,
    }
}

/// A due time moved into the window of the job, where the schedule is one of
/// intervals and the job has a window.
pub open spec fn aligned_candidate(
    job: JobView,
    candidate: Option<int>,
    zone: Seq<char>,
) -> Option<int> {
    if is_interval_style(job.schedule) && job.time_window is Some {
        time_window_alignment::aligned(
            candidate,
            job.time_window_alignment,
            job.time_window,
            zone,
        )
    } else {
        candidate
    }
}

pub open spec fn some_or_error(result: Result<int, ErrorView>) -> Result<Option<int>, ErrorView> {
    match result {
        Ok(instant) => Ok(Some(instant)),
        Err(error) => Err(error),
    }
}

/// The first due time of a schedule, before it is aligned.
pub open spec fn initial_candidate(
    job: JobView,
    now: int,
    zone: Seq<char>,
) -> Result<Option<int>, ErrorView> {
    match job.schedule {
        ScheduleView::Interval(every) => match windowed_interval::moved_by(now, every) {
            Some(next) => Ok(Some(next)),
            None => Err(error::interval_out_of_range_error()),
        },
        ScheduleView::StaggeredInterval { every, seed } => some_or_error(
            interval_phase::staggered_initial(now, every, seed, job.job_id),
        ),
        ScheduleView::GroupedInterval {
            every,
            group_size,
            member_index,
            group_seed,
        } => some_or_error(
            interval_phase::grouped_initial(now, every, group_size, member_index, group_seed),
        ),
        ScheduleView::WindowedInterval(windowed) => windowed_interval::windowed_next(
            windowed,
            now,
            zone,
        ),
        ScheduleView::AtTimes(times) => Ok(
            if times.len() > 0 {
                Some(times[0])
            } else {
                None
            },
        ),
        ScheduleView::Cron(source) => Ok(cron_schedule::cron_next_after(source, now, zone)),
        ScheduleView::GroupedCron(grouped) => some_or_error(
            grouped_cron::grouped_cron_initial(now, grouped, zone),
        ),
    }
}

/// The first due time of a job.
pub open spec fn initial_due(
    job: JobView,
    now: int,
    zone: Seq<char>,
) -> Result<Option<int>, ErrorView> {
    if job.max_runs == Some(0u32) {
        Ok(None)
    } else {
        match initial_candidate(job, now, zone) {
            Ok(candidate) => Ok(aligned_candidate(job, candidate, zone)),
            Err(error) => Err(error),
        }
    }
}

/// An instant one interval later; `None` outside the calendar.
pub open spec fn interval_later(at: int, every: int) -> Result<Option<int>, ErrorView> {
    match time::delta_of(every) {
        Some(delta) => Ok(time::checked_shift(at, delta)),
        None => Err(error::interval_out_of_range_error()),
    }
}

/// The due time of a schedule after the due time `at`, before it is aligned;
/// `count` triggers have been consumed.
pub open spec fn next_candidate(
    job: JobView,
    at: int,
    count: nat,
    zone: Seq<char>,
) -> Result<Option<int>, ErrorView> {
    match job.schedule {
        ScheduleView::Interval(every) => interval_later(at, every),
        ScheduleView::StaggeredInterval { every, seed } => interval_later(at, every),
        ScheduleView::GroupedInterval {
            every,
            group_size,
            member_index,
            group_seed,
        } => interval_later(at, every),
        ScheduleView::WindowedInterval(windowed) => windowed_interval::windowed_next(
            windowed,
            at,
            zone,
        ),
        ScheduleView::AtTimes(times) => Ok(
            if count < times.len() {
                Some(times[count as int])
            } else {
                None
            },
        ),
        ScheduleView::Cron(source) => Ok(cron_schedule::cron_next_after(source, at, zone)),
        ScheduleView::GroupedCron(grouped) => grouped_cron::grouped_cron_next(at, grouped, zone),
    }
}

/// Whether a job has consumed all the triggers that it may.
pub open spec fn runs_exhausted(job: JobView, count: nat) -> bool {
    job.max_runs matches Some(max_runs) && count >= max_runs
}

/// The due time of a job after the due time `at`; `count` triggers have been
/// consumed.
#[verifier::opaque]
pub open spec fn next_due(
    job: JobView,
    at: int,
    count: nat,
    zone: Seq<char>,
) -> Result<Option<int>, ErrorView> {
    if runs_exhausted(job, count) {
        Ok(None)
    } else {
        match next_candidate(job, at, count, zone) {
            Ok(candidate) => Ok(aligned_candidate(job, candidate, zone)),
            Err(error) => Err(error),
        }
    }
}

/// Whether a due time was missed: it is more than 25 milliseconds past.
pub open spec fn missed(scheduled_at: int, now: int) -> bool {
    match time::checked_shift(scheduled_at, MISSED_TOLERANCE_NANOS as int) {
        Some(adjusted) => adjusted < now,
        None => false,
    }
}

/// The due time `k` places after the next run of a state.
pub open spec fn nth_due(
    job: JobView,
    state: JobStateView,
    zone: Seq<char>,
    k: nat,
) -> Result<Option<int>, ErrorView>
    decreases k,
{
    if k == 0 {
        Ok(state.next_run_at)
    } else {
        match nth_due(job, state, zone, (k - 1) as nat) {
            Ok(Some(at)) => next_due(job, at, state.trigger_count + k, zone),
            other => other,
        }
    }
}

/// Whether the `k`-th due time is at or before `now`.
pub open spec fn is_due(job: JobView, state: JobStateView, now: int, zone: Seq<char>, k: nat) -> bool {
    nth_due(job, state, zone, k) matches Ok(Some(at)) && at <= now
}

/// Whether exactly the first `n` due times of a state are at or before `now`.
pub open spec fn is_due_count(
    job: JobView,
    state: JobStateView,
    now: int,
    zone: Seq<char>,
    n: nat,
) -> bool {
    &&& forall|k: nat| k < n ==> #[trigger] is_due(job, state, now, zone, k)
    &&& !is_due(job, state, now, zone, n)
}

/// How many due times of a state are at or before `now`.
pub open spec fn due_count(job: JobView, state: JobStateView, now: int, zone: Seq<char>) -> nat {
    choose|n: nat| is_due_count(job, state, now, zone, n)
}

/// Whether the due times at or before `now` come to an end before the trigger
/// count is used up.
pub open spec fn due_count_fits(
    job: JobView,
    state: JobStateView,
    now: int,
    zone: Seq<char>,
) -> bool {
    exists|n: nat| #[trigger]
        is_due_count(job, state, now, zone, n) && state.trigger_count + n <= u32::MAX
}

pub proof fn lemma_due_count_unique(
    job: JobView,
    state: JobStateView,
    now: int,
    zone: Seq<char>,
    n: nat,
)
    requires
        is_due_count(job, state, now, zone, n),
    ensures
        due_count(job, state, now, zone) == n,
{
    let m = due_count(job, state, now, zone);
    assert(is_due_count(job, state, now, zone, m));
    if m < n {
        assert(is_due(job, state, now, zone, m));
    } else if n < m {
        assert(is_due(job, state, now, zone, n));
    }
}

/// A state after its first `n` due times were consumed. Where the due time
/// after them cannot be computed, the last one stays in place.
pub open spec fn consumed_state(
    job: JobView,
    state: JobStateView,
    zone: Seq<char>,
    n: nat,
) -> JobStateView {
    JobStateView {
        trigger_count: state.trigger_count + n,
        next_run_at: match nth_due(job, state, zone, n) {
            Ok(next) => next,
            Err(_) => nth_due(job, state, zone, (n - 1) as nat)->Ok_0,
        },
        ..state
    }
}

/// What a [`DueSummary`] says; instants in nanoseconds.
pub struct DueSummaryView {
    pub first_due: int,
    pub last_due: int,
    pub count: nat,
}

/// The due times at or before `now`: the first, the last, and how many.
pub open spec fn due_summary(
    job: JobView,
    state: JobStateView,
    now: int,
    zone: Seq<char>,
) -> Result<Option<DueSummaryView>, ErrorView> {
    let n = due_count(job, state, now, zone);
    match nth_due(job, state, zone, n) {
        Err(error) => Err(error),
        Ok(_) => if n == 0 {
            Ok(None)
        } else {
            Ok(
                Some(
                    DueSummaryView {
                        first_due: state.next_run_at->0,
                        last_due: nth_due(job, state, zone, (n - 1) as nat)->Ok_0->0,
                        count: n,
                    },
                ),
            )
        },
    }
}

#[derive(Debug, Clone, Copy, PartialEq, Eq)]
pub struct DueSummary {
    pub first_due: UtcTime,
    pub last_due: UtcTime,
    pub count: u32,
}

impl View for DueSummary {
    type V = DueSummaryView;

    open spec fn view(&self) -> DueSummaryView {
        DueSummaryView {
            first_due: self.first_due@,
            last_due: self.last_due@,
            count: self.count as nat,
        }
    }
}

pub open spec fn summary_result(
    result: Result<Option<DueSummary>, SchedulerError>,
) -> Result<Option<DueSummaryView>, ErrorView> {
    match result {
        Ok(Some(summary)) => Ok(Some(summary@)),
        Ok(None) => Ok(None),
        Err(error) => Err(error@),
    }
}

#[derive(Debug, Clone, Copy, PartialEq, Eq)]
pub struct DueWindow {
    pub first_due: UtcTime,
    pub has_multiple: bool,
}

/// Every due time of a schedule of intervals lies after the one before it,
/// aligned or not.
pub proof fn law_next_due_later(job: JobView, at: int, count: nat, zone: Seq<char>)
    requires
        match job.schedule {
            ScheduleView::Interval(every) => every > 0,
            ScheduleView::StaggeredInterval { every, seed } => every > 0,
            ScheduleView::GroupedInterval {
                every,
                group_size,
                member_index,
                group_seed,
            } => every > 0,
            ScheduleView::WindowedInterval(windowed) => windowed_interval::spans_valid(windowed),
            _ => false,
        },
    ensures
        next_due(job, at, count, zone) matches Ok(Some(next)) ==> at < next,
{
    reveal(next_due);
    match job.schedule {
        ScheduleView::WindowedInterval(windowed) => {
            windowed_interval::law_windowed_next(windowed, at, zone);
        },
        _ => {},
    }
    match next_candidate(job, at, count, zone) {
        Ok(Some(candidate)) => {
            assert(at < candidate);
            match job.time_window {
                Some(window) => {
                    time_window_alignment::law_aligned_opens(candidate, window, zone);
                },
                None => {},
            }
        },
        _ => {},
    }
}

/// A due time that alignment moved is one at which the job may run.
pub proof fn law_aligned_due_is_open(job: JobView, at: int, count: nat, zone: Seq<char>)
    requires
        is_interval_style(job.schedule),
        job.time_window_alignment == TimeWindowAlignment::AlignToNextWindow,
        job.time_window is Some,
    ensures
        next_due(job, at, count, zone) matches Ok(Some(next)) ==> time_window::open_at(
            job.time_window->0,
            next,
            zone,
        ),
{
    reveal(next_due);
    match next_candidate(job, at, count, zone) {
        Ok(Some(candidate)) => {
            time_window_alignment::law_aligned_opens(candidate, job.time_window->0, zone);
        },
        _ => {},
    }
}

/// A limit on the number of runs holds for every schedule: once it is reached
/// nothing more is due, and a limit of zero leaves nothing due at all.
pub proof fn law_max_runs(job: JobView, at: int, count: nat, now: int, zone: Seq<char>)
    requires
        job.max_runs is Some,
    ensures
        count >= job.max_runs->0 ==> next_due(job, at, count, zone) == Ok::<
            Option<int>,
            ErrorView,
        >(None),
        job.max_runs->0 == 0 ==> initial_due(job, now, zone) == Ok::<Option<int>, ErrorView>(None),
{
    reveal(next_due);
}

/// An explicit list is never due before its times: without a limit of zero the
/// first due time is the first one of the list, an empty list is never due,
/// and alignment and time zones leave the times as they are.
pub proof fn law_at_times(job: JobView, times: Seq<int>, at: int, count: nat, now: int, zone: Seq<char>)
    requires
        job.schedule == ScheduleView::AtTimes(times),
        job.max_runs is None,
    ensures
        times.len() == 0 ==> initial_due(job, now, zone) == Ok::<Option<int>, ErrorView>(None),
        times.len() > 0 ==> initial_due(job, now, zone) == Ok::<Option<int>, ErrorView>(
            Some(times[0]),
        ),
        count < times.len() ==> next_due(job, at, count, zone) == Ok::<Option<int>, ErrorView>(
            Some(times[count as int]),
        ),
        count >= times.len() ==> next_due(job, at, count, zone) == Ok::<Option<int>, ErrorView>(
            None,
        ),
{
    reveal(next_due);
}

/// A job without a window has the due times of its schedule, whether alignment
/// is on or off.
pub proof fn law_no_window_no_alignment(
    job: JobView,
    at: int,
    count: nat,
    zone: Seq<char>,
)
    requires
        job.time_window is None,
        !runs_exhausted(job, count),
    ensures
        next_due(job, at, count, zone) == next_candidate(job, at, count, zone),
{
    reveal(next_due);
}

/// The due times that a summary counts are all at or before `now`, and the one
/// after them is not.
pub proof fn law_consumed_all_due(job: JobView, state: JobStateView, now: int, zone: Seq<char>)
    requires
        due_count_fits(job, state, now, zone),
        due_summary(job, state, now, zone) is Ok,
    ensures
        consumed_state(job, state, zone, due_count(job, state, now, zone)).next_run_at matches Some(
            next,
        ) ==> next > now,
        due_summary(job, state, now, zone) matches Ok(Some(summary)) ==> summary.first_due <= now
            && summary.last_due <= now,
{
    let n = due_count(job, state, now, zone);
    assert(is_due_count(job, state, now, zone, n));
    if n > 0 {
        assert(is_due(job, state, now, zone, 0));
        assert(is_due(job, state, now, zone, (n - 1) as nat));
    }
}

/// The first due time of a job, seen from `now`.
pub fn initial_next_run_at(
    job: &Job,
    now: UtcTime,
    timezone: &Timezone,
) -> (r: Result<Option<UtcTime>, SchedulerError>)
    ensures
        windowed_interval::due_result(r) == initial_due(job@, now@, timezone@),
{
    if let Some(max_runs) = job.max_runs {
        if max_runs == 0 {
            return Ok(None);
        }
    }
    let candidate = match &job.schedule {
        Schedule::Interval(every) => match advanced_by(now, *every) {
            Some(next) => Some(next),
            None => {
                return Err(SchedulerError::invalid_interval_out_of_range());
            },
        },
        Schedule::StaggeredInterval(staggered) => {
            match interval_phase::staggered_initial_next_run_at(
                now,
                staggered,
                job.job_id.as_str(),
            ) {
                Ok(next) => Some(next),
                Err(error) => {
                    return Err(error);
                },
            }
        },
        Schedule::GroupedInterval(grouped) => {
            match interval_phase::grouped_initial_next_run_at(now, grouped) {
                Ok(next) => Some(next),
                Err(error) => {
                    return Err(error);
                },
            }
        },
        Schedule::WindowedInterval(windowed) => {
            match windowed_interval::next_after(now, windowed, timezone) {
                Ok(next) => next,
                Err(error) => {
                    return Err(error);
                },
            }
        },
        Schedule::AtTimes(times) => {
            if times.len() > 0 {
                Some(times[0])
            } else {
                None
            }
        },
        Schedule::Cron(cron) => cron.next_after(now, timezone),
        Schedule::GroupedCron(grouped) => {
            match grouped_cron::initial_next_run_at(now, grouped, timezone) {
                Ok(next) => Some(next),
                Err(error) => {
                    return Err(error);
                },
            }
        },
    };
    Ok(align_candidate_if_interval_schedule(job, candidate, timezone))
}

/// Whether a due time is still to come.
pub fn next_run_is_in_future(next_run_at: Option<UtcTime>, now: UtcTime) -> (r: bool)
    ensures
        r == (next_run_at matches Some(next) && next@ > now@),
{
    match next_run_at {
        Some(next) => now.earlier_than(&next),
        None => false,
    }
}

/// The next due time where it is at or before `now`, and whether the one after
/// it is too.
pub fn inspect_due_window(
    job: &Job,
    state: &JobState,
    now: UtcTime,
    timezone: &Timezone,
) -> (r: Result<Option<DueWindow>, SchedulerError>)
    requires
        is_due(job@, state@, now@, timezone@, 0) ==> state.trigger_count < u32::MAX,
    ensures
        match r {
            Ok(None) => !is_due(job@, state@, now@, timezone@, 0),
            Ok(Some(window)) => {
                &&& is_due(job@, state@, now@, timezone@, 0)
                &&& state@.next_run_at == Some(window.first_due@)
                &&& nth_due(job@, state@, timezone@, 1) is Ok
                &&& window.has_multiple == is_due(job@, state@, now@, timezone@, 1)
            },
            Err(error) => {
                &&& is_due(job@, state@, now@, timezone@, 0)
                &&& nth_due(job@, state@, timezone@, 1) == Err::<Option<int>, ErrorView>(error@)
            },
        },
{
    reveal_with_fuel(nth_due, 2);
    let first_due = match state.next_run_at {
        Some(value) => value,
        None => {
            return Ok(None);
        },
    };
    if now.earlier_than(&first_due) {
        return Ok(None);
    }
    let next_trigger_count: u32 = state.trigger_count + 1;
    match compute_next_after(job, first_due, next_trigger_count, timezone) {
        Err(error) => Err(error),
        Ok(next) => {
            let has_multiple = match next {
                Some(next_due) => next_due.at_or_before(&now),
                None => false,
            };
            Ok(Some(DueWindow { first_due, has_multiple }))
        },
    }
}

/// Consumes the due times at or before `now` and sums them up. `None`, with
/// the state as it was, means that there are more of them than the trigger
/// count can hold.
pub fn try_consume_due_summary(
    job: &Job,
    state: &mut JobState,
    now: UtcTime,
    timezone: &Timezone,
) -> (r: Option<Result<Option<DueSummary>, SchedulerError>>)
    ensures
        match r {
            None => !due_count_fits(job@, old(state)@, now@, timezone@) && *final(state) == *old(
                state,
            ),
            Some(result) => {
                &&& due_count_fits(job@, old(state)@, now@, timezone@)
                &&& summary_result(result) == due_summary(job@, old(state)@, now@, timezone@)
                &&& final(state)@ == consumed_state(
                    job@,
                    old(state)@,
                    timezone@,
                    due_count(job@, old(state)@, now@, timezone@),
                )
            },
        },
{
    let start_count: u32 = state.trigger_count;
    let start_next = state.next_run_at;
    let ghost start = *state;
    let ghost view = state@;
    let mut first_due: Option<UtcTime> = None;
    let mut last_due: Option<UtcTime> = None;
    let mut count: u32 = 0;
    let mut due = true;
    while due
        invariant
            start == *old(state),
            start_count == start.trigger_count,
            start_next == start.next_run_at,
            view == start@,
            start_count + count <= u32::MAX,
            *state == (JobState {
                trigger_count: (start_count + count) as u32,
                next_run_at: state.next_run_at,
                ..start
            }),
            nth_due(job@, view, timezone@, count as nat) == Ok::<Option<int>, ErrorView>(
                time::instant_view(state.next_run_at),
            ),
            forall|k: nat| k < count ==> #[trigger] is_due(job@, view, now@, timezone@, k),
            !due ==> is_due_count(job@, view, now@, timezone@, count as nat),
            count == 0 ==> first_due is None && last_due is None && state.next_run_at == start_next,
            count > 0 ==> time::instant_view(first_due) == view.next_run_at && first_due is Some
                && last_due is Some && nth_due(
                job@,
                view,
                timezone@,
                (count - 1) as nat,
            ) == Ok::<Option<int>, ErrorView>(time::instant_view(last_due)),
        decreases u32::MAX - start_count - count + (if due { 1int } else { 0int }),
    {
        match state.next_run_at {
            Some(value) => {
                if now.earlier_than(&value) {
                    due = false;
                } else {
                    assert(is_due(job@, view, now@, timezone@, count as nat));
                    if state.trigger_count == u32::MAX {
                        proof {
                            if due_count_fits(job@, view, now@, timezone@) {
                                let n = choose|n: nat| #[trigger]
                                    is_due_count(job@, view, now@, timezone@, n)
                                        && view.trigger_count + n <= u32::MAX;
                                assert(n <= count);
                                assert(is_due(job@, view, now@, timezone@, n));
                            }
                        }
                        state.trigger_count = start_count;
                        state.next_run_at = start_next;
                        return None;
                    }
                    if first_due.is_none() {
                        first_due = Some(value);
                    }
                    last_due = Some(value);
                    count = count + 1;
                    match advance_state_to(job, state, value, timezone) {
                        Ok(()) => {},
                        Err(error) => {
                            proof {
                                assert(!is_due(job@, view, now@, timezone@, count as nat));
                                assert(is_due_count(job@, view, now@, timezone@, count as nat));
                                lemma_due_count_unique(
                                    job@,
                                    view,
                                    now@,
                                    timezone@,
                                    count as nat,
                                );
                            }
                            return Some(Err(error));
                        },
                    }
                }
            },
            None => {
                due = false;
            },
        }
    }
    proof {
        lemma_due_count_unique(job@, view, now@, timezone@, count as nat);
    }
    match (first_due, last_due) {
        (Some(first), Some(last)) => Some(
            Ok(Some(DueSummary { first_due: first, last_due: last, count })),
        ),
        _ => Some(Ok(None)),
    }
}

/// Consumes the due times at or before `now` and sums them up.
pub fn consume_due_summary(
    job: &Job,
    state: &mut JobState,
    now: UtcTime,
    timezone: &Timezone,
) -> (r: Result<Option<DueSummary>, SchedulerError>)
    requires
        due_count_fits(job@, old(state)@, now@, timezone@),
    ensures
        summary_result(r) == due_summary(job@, old(state)@, now@, timezone@),
        final(state)@ == consumed_state(
            job@,
            old(state)@,
            timezone@,
            due_count(job@, old(state)@, now@, timezone@),
        ),
{
    try_consume_due_summary(job, state, now, timezone).unwrap()
}

/// Counts one more trigger, and moves the next run to the due time after
/// `scheduled_at`; where that cannot be computed the next run stays.
pub fn advance_state_to(
    job: &Job,
    state: &mut JobState,
    scheduled_at: UtcTime,
    timezone: &Timezone,
) -> (r: Result<(), SchedulerError>)
    requires
        old(state).trigger_count < u32::MAX,
    ensures
        *final(state) == (JobState {
            trigger_count: (old(state).trigger_count + 1) as u32,
            next_run_at: final(state).next_run_at,
            ..*old(state)
        }),
        match r {
            Ok(()) => next_due(
                job@,
                scheduled_at@,
                old(state).trigger_count as nat + 1,
                timezone@,
            ) == Ok::<Option<int>, ErrorView>(time::instant_view(final(state).next_run_at)),
            Err(error) => final(state).next_run_at == old(state).next_run_at && next_due(
                job@,
                scheduled_at@,
                old(state).trigger_count as nat + 1,
                timezone@,
            ) == Err::<Option<int>, ErrorView>(error@),
        },
{
    state.trigger_count = state.trigger_count + 1;
    match compute_next_after(job, scheduled_at, state.trigger_count, timezone) {
        Ok(next) => {
            state.next_run_at = next;
            Ok(())
        },
        Err(error) => Err(error),
    }
}

/// Counts a trigger that was asked for by hand. The schedule stays as it is,
/// except that nothing is due any more once the limit of runs is reached.
pub fn advance_state_for_manual_trigger(job: &Job, state: &mut JobState) -> (r: u32)
    requires
        old(state).trigger_count < u32::MAX,
    ensures
        r == old(state).trigger_count + 1,
        *final(state) == (JobState {
            trigger_count: r,
            next_run_at: if runs_exhausted(job@, r as nat) {
                None
            } else {
                old(state).next_run_at
            },
            ..*old(state)
        }),
{
    state.trigger_count = state.trigger_count + 1;
    if let Some(max_runs) = job.max_runs {
        if state.trigger_count >= max_runs {
            state.next_run_at = None;
        }
    }
    state.trigger_count
}

/// The due time after the due time `scheduled_at`, once `trigger_count`
/// triggers have been consumed.
pub fn compute_next_after(
    job: &Job,
    scheduled_at: UtcTime,
    trigger_count: u32,
    timezone: &Timezone,
) -> (r: Result<Option<UtcTime>, SchedulerError>)
    ensures
        windowed_interval::due_result(r) == next_due(
            job@,
            scheduled_at@,
            trigger_count as nat,
            timezone@,
        ),
{
    reveal(next_due);
    if let Some(max_runs) = job.max_runs {
        if trigger_count >= max_runs {
            return Ok(None);
        }
    }
    let computed = match &job.schedule {
        Schedule::Interval(every) => next_by_interval(scheduled_at, *every),
        Schedule::StaggeredInterval(staggered) => next_by_interval(scheduled_at, staggered.every),
        Schedule::GroupedInterval(grouped) => next_by_interval(scheduled_at, grouped.every),
        Schedule::WindowedInterval(windowed) => windowed_interval::next_after(
            scheduled_at,
            windowed,
            timezone,
        ),
        Schedule::AtTimes(times) => {
            let index: usize = trigger_count as usize;
            if index < times.len() {
                Ok(Some(times[index]))
            } else {
                Ok(None)
            }
        },
        Schedule::Cron(cron) => Ok(cron.next_after(scheduled_at, timezone)),
        Schedule::GroupedCron(grouped) => grouped_cron::next_after(
            scheduled_at,
            grouped,
            timezone,
        ),
    };
    match computed {
        Ok(candidate) => Ok(align_candidate_if_interval_schedule(job, candidate, timezone)),
        Err(error) => Err(error),
    }
}

fn next_by_interval(
    scheduled_at: UtcTime,
    every: Duration,
) -> (r: Result<Option<UtcTime>, SchedulerError>)
    ensures
        windowed_interval::due_result(r) == interval_later(scheduled_at@, every@),
{
    match duration_to_delta(every) {
        Some(delta) => Ok(scheduled_at.shifted(delta)),
        None => Err(SchedulerError::invalid_interval_out_of_range()),
    }
}

/// Moves a due time into the window of the job, where the schedule is one of
/// intervals and the job has a window.
pub fn align_candidate_if_interval_schedule(
    job: &Job,
    candidate: Option<UtcTime>,
    timezone: &Timezone,
) -> (r: Option<UtcTime>)
    ensures
        time::instant_view(r) == aligned_candidate(
            job@,
            time::instant_view(candidate),
            timezone@,
        ),
{
    let interval_style = match &job.schedule {
        Schedule::Interval(_) => true,
        Schedule::StaggeredInterval(_) => true,
        Schedule::GroupedInterval(_) => true,
        Schedule::WindowedInterval(_) => true,
        _ => false,
    };
    if !interval_style {
        return candidate;
    }
    match &job.time_window {
        None => candidate,
        Some(window) => align_to_window(
            candidate,
            job.time_window_alignment,
            Some(window),
            timezone,
        ),
    }
}

/// Whether a due time was missed: it is more than 25 milliseconds past.
pub fn is_missed(scheduled_at: UtcTime, now: UtcTime) -> (r: bool)
    ensures
        r == missed(scheduled_at@, now@),
{
    match scheduled_at.shifted(MISSED_TOLERANCE_NANOS) {
        Some(adjusted) => adjusted.earlier_than(&now),
        None => false,
    }
}

/// A state after triggers at the given due times, one after the other, up to
/// the first whose next due time cannot be computed; and the error of that
/// one.
pub open spec fn advanced_for(
    job: JobView,
    state: JobStateView,
    times: Seq<int>,
    zone: Seq<char>,
) -> (Option<ErrorView>, JobStateView)
    decreases times.len(),
{
    if times.len() == 0 {
        (None, state)
    } else {
        let before = advanced_for(job, state, times.drop_last(), zone);
        if before.0 is Some {
            before
        } else {
            let count = before.1.trigger_count + 1;
            match next_due(job, times.last(), count, zone) {
                Ok(next) => (
                    None,
                    JobStateView { trigger_count: count, next_run_at: next, ..before.1 },
                ),
                Err(error) => (Some(error), JobStateView { trigger_count: count, ..before.1 }),
            }
        }
    }
}

proof fn lemma_advanced_for_stops(
    job: JobView,
    state: JobStateView,
    times: Seq<int>,
    zone: Seq<char>,
    stop: nat,
)
    requires
        stop <= times.len(),
        advanced_for(job, state, times.take(stop as int), zone).0 is Some,
    ensures
        advanced_for(job, state, times, zone) == advanced_for(
            job,
            state,
            times.take(stop as int),
            zone,
        ),
    decreases times.len(),
{
    if stop < times.len() {
        assert(times.drop_last().take(stop as int) =~= times.take(stop as int));
        lemma_advanced_for_stops(job, state, times.drop_last(), zone, stop);
    } else {
        assert(times.take(stop as int) =~= times);
    }
}

/// Advances a state by triggers at the given due times, up to the first whose
/// next due time cannot be computed.
pub fn advance_state_for(
    job: &Job,
    state: &mut JobState,
    due_times: &Vec<UtcTime>,
    timezone: &Timezone,
) -> (r: Result<(), SchedulerError>)
    requires
        old(state).trigger_count + due_times@.len() <= u32::MAX,
    ensures
        advanced_for(job@, old(state)@, boundaries::nanos_of(due_times@), timezone@) == (
            match r {
                Ok(()) => None,
                Err(error) => Some(error@),
            },
            final(state)@,
        ),
{
    let ghost view = state@;
    let ghost times = boundaries::nanos_of(due_times@);
    let mut index: usize = 0;
    while index < due_times.len()
        invariant
            view == old(state)@,
            times == boundaries::nanos_of(due_times@),
            index <= due_times.len(),
            state.trigger_count == view.trigger_count + index,
            view.trigger_count + due_times@.len() <= u32::MAX,
            advanced_for(job@, view, times.take(index as int), timezone@) == (
                None::<ErrorView>,
                state@,
            ),
        decreases due_times.len() - index,
    {
        proof {
            assert(times.take(index + 1).drop_last() =~= times.take(index as int));
            assert(times.take(index + 1).last() == due_times@[index as int]@);
        }
        match advance_state_to(job, state, due_times[index], timezone) {
            Ok(()) => {},
            Err(error) => {
                proof {
                    lemma_advanced_for_stops(
                        job@,
                        view,
                        times,
                        timezone@,
                        (index + 1) as nat,
                    );
                }
                return Err(error);
            },
        }
        index = index + 1;
    }
    assert(times.take(index as int) =~= times);
    Ok(())
}

/// The due times at or before `now`, in order; `None` where there are more of
/// them than the trigger count can hold.
pub fn collect_due_times(
    job: &Job,
    state: &JobState,
    now: UtcTime,
    timezone: &Timezone,
) -> (r: Option<Result<Vec<UtcTime>, SchedulerError>>)
    ensures
        match r {
            None => !due_count_fits(job@, state@, now@, timezone@),
            Some(Ok(due_times)) => {
                &&& is_due_count(job@, state@, now@, timezone@, due_times@.len())
                &&& state.trigger_count + due_times@.len() <= u32::MAX
                &&& nth_due(job@, state@, timezone@, due_times@.len()) is Ok
                &&& forall|k: int|
                    0 <= k < due_times@.len() ==> nth_due(job@, state@, timezone@, k as nat) == Ok::<
                        Option<int>,
                        ErrorView,
                    >(Some((#[trigger] due_times@[k])@))
            },
            Some(Err(error)) => exists|n: nat|
                is_due_count(job@, state@, now@, timezone@, n) && #[trigger] nth_due(
                    job@,
                    state@,
                    timezone@,
                    n,
                ) == Err::<Option<int>, ErrorView>(error@),
        },
{
    let mut due_times: Vec<UtcTime> = Vec::new();
    let mut trigger_count: u32 = state.trigger_count;
    let mut next_run_at = state.next_run_at;
    let mut due = true;
    while due
        invariant
            trigger_count == state.trigger_count + due_times@.len(),
            nth_due(job@, state@, timezone@, due_times@.len()) == Ok::<Option<int>, ErrorView>(
                time::instant_view(next_run_at),
            ),
            forall|k: nat|
                k < due_times@.len() ==> #[trigger] is_due(job@, state@, now@, timezone@, k),
            forall|k: int|
                0 <= k < due_times@.len() ==> nth_due(job@, state@, timezone@, k as nat) == Ok::<
                    Option<int>,
                    ErrorView,
                >(Some((#[trigger] due_times@[k])@)),
            !due ==> is_due_count(job@, state@, now@, timezone@, due_times@.len()),
        decreases u32::MAX - trigger_count + (if due { 1int } else { 0int }),
    {
        match next_run_at {
            Some(value) => {
                if now.earlier_than(&value) {
                    due = false;
                } else {
                    let ghost place = due_times@.len();
                    assert(is_due(job@, state@, now@, timezone@, place));
                    if trigger_count == u32::MAX {
                        proof {
                            if due_count_fits(job@, state@, now@, timezone@) {
                                let n = choose|n: nat| #[trigger]
                                    is_due_count(job@, state@, now@, timezone@, n)
                                        && state@.trigger_count + n <= u32::MAX;
                                assert(is_due(job@, state@, now@, timezone@, n));
                            }
                        }
                        return None;
                    }
                    due_times.push(value);
                    trigger_count = trigger_count + 1;
                    match compute_next_after(job, value, trigger_count, timezone) {
                        Ok(next) => {
                            next_run_at = next;
                        },
                        Err(error) => {
                            proof {
                                assert(!is_due(job@, state@, now@, timezone@, place + 1));
                                assert(is_due_count(job@, state@, now@, timezone@, place + 1));
                                assert(nth_due(job@, state@, timezone@, place + 1) == Err::<
                                    Option<int>,
                                    ErrorView,
                                >(error@));
                            }
                            return Some(Err(error));
                        },
                    }
                }
            },
            None => {
                due = false;
            },
        }
    }
    Some(Ok(due_times))
}

/// Whether due times are left alone: nothing limits them to a window, or they
/// are not to be moved into it.
pub open spec fn left_alone(job: JobView) -> bool {
    job.time_window is None || job.time_window_alignment == TimeWindowAlignment::Disabled
}

/// Whether a job may run once more after `count` triggers.
pub open spec fn has_runs_left(job: JobView, count: nat) -> bool {
    job.max_runs is None || count < job.max_runs->0
}

/// A schedule of one interval, staggered, grouped or neither, is due one interval
/// after each due time, and for the last time before it leaves the calendar.
pub proof fn law_interval_repeats(job: JobView, every: int, at: int, count: nat, zone: Seq<char>)
    requires
        match job.schedule {
            ScheduleView::Interval(own) => own == every,
            ScheduleView::StaggeredInterval { every: own, seed } => own == every,
            ScheduleView::GroupedInterval {
                every: own,
                group_size,
                member_index,
                group_seed,
            } => own == every,
            _ => false,
        },
        left_alone(job),
        has_runs_left(job, count),
    ensures
        every <= 9_223_372_036_854_775_807_000_000 && time::in_calendar(at + every) ==> next_due(
            job,
            at,
            count,
            zone,
        ) == Ok::<Option<int>, ErrorView>(Some(at + every)),
        every <= 9_223_372_036_854_775_807_000_000 && !time::in_calendar(at + every) ==> next_due(
            job,
            at,
            count,
            zone,
        ) == Ok::<Option<int>, ErrorView>(None),
        every > 9_223_372_036_854_775_807_000_000 ==> next_due(job, at, count, zone) == Err::<
            Option<int>,
            ErrorView,
        >(error::interval_out_of_range_error()),
{
    reveal(next_due);
}

/// A plain interval is first due one interval from now.
pub proof fn law_interval_starts(job: JobView, every: int, now: int, zone: Seq<char>)
    requires
        job.schedule == ScheduleView::Interval(every),
        left_alone(job),
        has_runs_left(job, 0),
    ensures
        every <= 9_223_372_036_854_775_807_000_000 && time::in_calendar(now + every)
            ==> initial_due(job, now, zone) == Ok::<Option<int>, ErrorView>(Some(now + every)),
        every > 9_223_372_036_854_775_807_000_000 || !time::in_calendar(now + every)
            ==> initial_due(job, now, zone) == Err::<Option<int>, ErrorView>(
            error::interval_out_of_range_error(),
        ),
{
}

/// A cron schedule is due at the first occurrence of its expression, at second
/// zero, after a due time or after now, on the clocks of the zone that is given.
/// Windows and alignment leave it alone.
pub proof fn law_cron_on_given_clocks(
    job: JobView,
    source: Seq<char>,
    at: int,
    count: nat,
    zone: Seq<char>,
)
    requires
        job.schedule == ScheduleView::Cron(source),
        has_runs_left(job, count),
        time::in_calendar(at),
        at / 1_000_000_000 < time::MAX_SECOND,
    ensures
        ({
            let found = cron_schedule::cron_next("0 "@ + source, zone, at / 1_000_000_000);
            let due = match found {
                Some(second) => Some(second * 1_000_000_000),
                None => None,
            };
            &&& next_due(job, at, count, zone) == Ok::<Option<int>, ErrorView>(due)
            &&& initial_due(job, at, zone) == Ok::<Option<int>, ErrorView>(due)
        }),
{
    reveal(next_due);
}

/// An explicit list is due at its times, one after the other, as far as the limit
/// of runs goes; windows, alignment and time zones leave it alone.
pub proof fn law_list_in_turn(
    job: JobView,
    times: Seq<int>,
    at: int,
    count: nat,
    now: int,
    zone: Seq<char>,
)
    requires
        job.schedule == ScheduleView::AtTimes(times),
    ensures
        has_runs_left(job, count) && count < times.len() ==> next_due(job, at, count, zone) == Ok::<
            Option<int>,
            ErrorView,
        >(Some(times[count as int])),
        has_runs_left(job, 0) && times.len() > 0 ==> initial_due(job, now, zone) == Ok::<
            Option<int>,
            ErrorView,
        >(Some(times[0])),
        !has_runs_left(job, count) || count >= times.len() ==> next_due(job, at, count, zone)
            == Ok::<Option<int>, ErrorView>(None),
        !has_runs_left(job, 0) || times.len() == 0 ==> initial_due(job, now, zone) == Ok::<
            Option<int>,
            ErrorView,
        >(None),
{
    reveal(next_due);
}

/// The schedules of other modules keep their own due times, in the zone that is
/// given: windowed intervals from each due time on, and from now at the start;
/// members of staggered and grouped schedules in their phase at the start, seen
/// from now.
pub proof fn law_own_due_times(job: JobView, at: int, count: nat, zone: Seq<char>)
    requires
        left_alone(job),
        has_runs_left(job, count),
    ensures
        job.schedule matches ScheduleView::WindowedInterval(windowed) ==> next_due(
            job,
            at,
            count,
            zone,
        ) == windowed_interval::windowed_next(windowed, at, zone) && initial_due(job, at, zone)
            == windowed_interval::windowed_next(windowed, at, zone),
        job.schedule matches ScheduleView::GroupedCron(grouped) ==> next_due(job, at, count, zone)
            == grouped_cron::grouped_cron_next(at, grouped, zone),
        job.schedule matches ScheduleView::GroupedCron(grouped) ==> (
        match grouped_cron::grouped_cron_initial(at, grouped, zone) {
            Ok(due) => initial_due(job, at, zone) == Ok::<Option<int>, ErrorView>(Some(due)),
            Err(error) => initial_due(job, at, zone) == Err::<Option<int>, ErrorView>(error),
        }),
        job.schedule matches ScheduleView::StaggeredInterval { every, seed } ==> (
        match interval_phase::staggered_initial(at, every, seed, job.job_id) {
            Ok(due) => initial_due(job, at, zone) == Ok::<Option<int>, ErrorView>(Some(due)),
            Err(error) => initial_due(job, at, zone) == Err::<Option<int>, ErrorView>(error),
        }),
        job.schedule matches ScheduleView::GroupedInterval {
            every,
            group_size,
            member_index,
            group_seed,
        } ==> (match interval_phase::grouped_initial(
            at,
            every,
            group_size,
            member_index,
            group_seed,
        ) {
            Ok(due) => initial_due(job, at, zone) == Ok::<Option<int>, ErrorView>(Some(due)),
            Err(error) => initial_due(job, at, zone) == Err::<Option<int>, ErrorView>(error),
        }),
{
    reveal(next_due);
}

/// Alignment moves what a schedule of intervals would be due at without it: not
/// at all where the window is open then, and otherwise to where the window opens;
/// errors and ends stay. Lists and cron expressions are never moved.
pub proof fn law_alignment_moves_due_times(
    job: JobView,
    window: time_window::WindowView,
    at: int,
    count: nat,
    zone: Seq<char>,
)
    requires
        job.time_window == Some(window),
        job.time_window_alignment == TimeWindowAlignment::AlignToNextWindow,
    ensures
        ({
            let plain = JobView { time_window: None, ..job };
            let moves = !(job.schedule is AtTimes || job.schedule is Cron
                || job.schedule is GroupedCron);
            &&& match next_due(plain, at, count, zone) {
                Ok(Some(due)) => next_due(job, at, count, zone) == Ok::<Option<int>, ErrorView>(
                    if !moves || time_window::open_at(window, due, zone) {
                        Some(due)
                    } else {
                        time_window_alignment::next_open_start(window, due, zone)
                    },
                ),
                other => next_due(job, at, count, zone) == other,
            }
            &&& match initial_due(plain, at, zone) {
                Ok(Some(due)) => initial_due(job, at, zone) == Ok::<Option<int>, ErrorView>(
                    if !moves || time_window::open_at(window, due, zone) {
                        Some(due)
                    } else {
                        time_window_alignment::next_open_start(window, due, zone)
                    },
                ),
                other => initial_due(job, at, zone) == other,
            }
        }),
{
    reveal(next_due);
}

/// Due times depend on the schedule, the limit of runs, the window and its
/// alignment, and on the job id for its phase; no other part of a job moves them.
pub proof fn law_due_by_schedule_alone(
    job: JobView,
    other: JobView,
    at: int,
    count: nat,
    zone: Seq<char>,
)
    requires
        other == (JobView {
            missed_run_policy: other.missed_run_policy,
            overlap_policy: other.overlap_policy,
            execution_resource_id: other.execution_resource_id,
            guard_scope: other.guard_scope,
            ..job
        }),
    ensures
        next_due(job, at, count, zone) == next_due(other, at, count, zone),
        initial_due(job, at, zone) == initial_due(other, at, zone),
{
    reveal(next_due);
}

/// A due time counts as missed once it is more than 25 milliseconds past.
pub proof fn law_tolerance(scheduled_at: int, now: int)
    requires
        time::in_calendar(scheduled_at),
        time::in_calendar(now),
    ensures
        missed(scheduled_at, now) <==> now - scheduled_at > 25_000_000,
{
}

/// Whether due times follow each other from the next run of a state on.
pub open spec fn is_walk(job: JobView, state: JobStateView, zone: Seq<char>, times: Seq<int>) -> bool {
    &&& times.len() > 0
    &&& state.next_run_at == Some(times[0])
    &&& forall|i: int|
        0 < i < times.len() ==> next_due(
            job,
            #[trigger] times[i - 1],
            (state.trigger_count + i) as nat,
            zone,
        ) == Ok::<Option<int>, ErrorView>(Some(times[i]))
}

/// Due times that follow each other are the due times of a state, in order.
pub proof fn lemma_walk(
    job: JobView,
    state: JobStateView,
    zone: Seq<char>,
    times: Seq<int>,
    k: nat,
)
    requires
        is_walk(job, state, zone, times),
        k <= times.len(),
    ensures
        k < times.len() ==> nth_due(job, state, zone, k) == Ok::<Option<int>, ErrorView>(
            Some(times[k as int]),
        ),
        k == times.len() ==> nth_due(job, state, zone, k) == next_due(
            job,
            times.last(),
            state.trigger_count + k,
            zone,
        ),
    decreases k,
{
    if k > 0 {
        lemma_walk(job, state, zone, times, (k - 1) as nat);
        assert(times[k - 1] == times[(k as int) - 1]);
        if k < times.len() {
            assert(next_due(job, times[k as int - 1], (state.trigger_count + k) as nat, zone) == Ok::<
                Option<int>,
                ErrorView,
            >(Some(times[k as int])));
        }
    }
}

/// The call for the due time after a due time of a cron job gives the first
/// occurrence after it, on the clocks of the zone that is handed to it.
pub proof fn law_compute_next_cron(
    job: &Job,
    scheduled_at: UtcTime,
    trigger_count: u32,
    timezone: &Timezone,
    r: Result<Option<UtcTime>, SchedulerError>,
)
    requires
        call_ensures(compute_next_after, (job, scheduled_at, trigger_count, timezone), r),
        job.schedule is Cron,
        has_runs_left(job@, trigger_count as nat),
        time::in_calendar(scheduled_at@),
        scheduled_at@ / 1_000_000_000 < time::MAX_SECOND,
    ensures
        r is Ok,
        ({
            let found = cron_schedule::cron_next(
                "0 "@ + job.schedule->Cron_0@,
                timezone@,
                scheduled_at@ / 1_000_000_000,
            );
            &&& r->Ok_0 is Some <==> found is Some
            &&& found is Some ==> r->Ok_0->0@ == found->0 * 1_000_000_000
        }),
{
    law_cron_on_given_clocks(
        job@,
        job.schedule->Cron_0@,
        scheduled_at@,
        trigger_count as nat,
        timezone@,
    );
}

/// The call for the first due time of a cron job gives the first occurrence after
/// now, on the clocks of the zone that is handed to it.
pub proof fn law_initial_cron(
    job: &Job,
    now: UtcTime,
    timezone: &Timezone,
    r: Result<Option<UtcTime>, SchedulerError>,
)
    requires
        call_ensures(initial_next_run_at, (job, now, timezone), r),
        job.schedule is Cron,
        has_runs_left(job@, 0),
        time::in_calendar(now@),
        now@ / 1_000_000_000 < time::MAX_SECOND,
    ensures
        r is Ok,
        ({
            let found = cron_schedule::cron_next(
                "0 "@ + job.schedule->Cron_0@,
                timezone@,
                now@ / 1_000_000_000,
            );
            &&& r->Ok_0 is Some <==> found is Some
            &&& found is Some ==> r->Ok_0->0@ == found->0 * 1_000_000_000
        }),
{
    law_cron_on_given_clocks(job@, job.schedule->Cron_0@, now@, 0, timezone@);
}

/// The calls for the due times of a plain interval: one interval from now at
/// first, and one interval after each due time.
pub proof fn law_compute_interval(
    job: &Job,
    at: UtcTime,
    trigger_count: u32,
    timezone: &Timezone,
    first: Result<Option<UtcTime>, SchedulerError>,
    next: Result<Option<UtcTime>, SchedulerError>,
)
    requires
        call_ensures(initial_next_run_at, (job, at, timezone), first),
        call_ensures(compute_next_after, (job, at, trigger_count, timezone), next),
        job.schedule is Interval,
        job.time_window is None || job.time_window_alignment == TimeWindowAlignment::Disabled,
        has_runs_left(job@, trigger_count as nat),
        job.schedule->Interval_0@ <= 9_223_372_036_854_775_807_000_000,
        time::in_calendar(at@ + job.schedule->Interval_0@),
    ensures
        first matches Ok(Some(due)) && due@ == at@ + job.schedule->Interval_0@,
        next matches Ok(Some(due)) && due@ == at@ + job.schedule->Interval_0@,
{
    law_interval_repeats(
        job@,
        job.schedule->Interval_0@,
        at@,
        trigger_count as nat,
        timezone@,
    );
    law_interval_starts(job@, job.schedule->Interval_0@, at@, timezone@);
}

/// The calls for the due times of a job that has used up its runs give none.
pub proof fn law_compute_exhausted(
    job: &Job,
    at: UtcTime,
    trigger_count: u32,
    timezone: &Timezone,
    first: Result<Option<UtcTime>, SchedulerError>,
    next: Result<Option<UtcTime>, SchedulerError>,
)
    requires
        call_ensures(initial_next_run_at, (job, at, timezone), first),
        call_ensures(compute_next_after, (job, at, trigger_count, timezone), next),
        job.max_runs is Some,
    ensures
        trigger_count >= job.max_runs->0 ==> (next matches Ok(None)),
        job.max_runs->0 == 0 ==> (first matches Ok(None)),
{
    law_max_runs(job@, at@, trigger_count as nat, at@, timezone@);
}

/// The call for the due time after a due time of an explicit list gives the next
/// one of the list.
pub proof fn law_compute_list(
    job: &Job,
    at: UtcTime,
    trigger_count: u32,
    timezone: &Timezone,
    r: Result<Option<UtcTime>, SchedulerError>,
)
    requires
        call_ensures(compute_next_after, (job, at, trigger_count, timezone), r),
        job.schedule is AtTimes,
        has_runs_left(job@, trigger_count as nat),
    ensures
        trigger_count < job.schedule->AtTimes_0@.len() ==> (r matches Ok(Some(due)) && due@
            == job.schedule->AtTimes_0@[trigger_count as int]@),
        trigger_count >= job.schedule->AtTimes_0@.len() ==> (r matches Ok(None)),
{
    law_list_in_turn(
        job@,
        job@.schedule->AtTimes_0,
        at@,
        trigger_count as nat,
        at@,
        timezone@,
    );
}

/// A trigger counts one up and moves the next run to the due time after it; where
/// that cannot be computed, the next run stays. Nothing else changes.
pub proof fn law_call_advance(
    job: &Job,
    state: &mut JobState,
    scheduled_at: UtcTime,
    timezone: &Timezone,
    next: Result<Option<UtcTime>, SchedulerError>,
    r: Result<(), SchedulerError>,
)
    requires
        call_ensures(advance_state_to, (job, state, scheduled_at, timezone), r),
        old(state).trigger_count < u32::MAX,
        call_ensures(
            compute_next_after,
            (job, scheduled_at, (old(state).trigger_count + 1) as u32, timezone),
            next,
        ),
    ensures
        final(state).trigger_count == old(state).trigger_count + 1,
        final(state).job_id == old(state).job_id,
        final(state).last_run_at == old(state).last_run_at,
        final(state).last_success_at == old(state).last_success_at,
        final(state).last_error == old(state).last_error,
        r is Ok <==> next is Ok,
        next is Ok ==> time::instant_view(final(state).next_run_at) == time::instant_view(
            next->Ok_0,
        ),
        next is Err ==> final(state).next_run_at == old(state).next_run_at && r->Err_0@
            == next->Err_0@,
{
}

/// A trigger that was asked for counts one up and keeps the next run, unless it
/// was the last run.
pub proof fn law_call_advance_manual(job: &Job, state: &mut JobState, r: u32)
    requires
        call_ensures(advance_state_for_manual_trigger, (job, state), r),
        old(state).trigger_count < u32::MAX,
    ensures
        r == old(state).trigger_count + 1,
        final(state).trigger_count == r,
        job.max_runs is None || r < job.max_runs->0 ==> final(state).next_run_at == old(
            state
        ).next_run_at,
        job.max_runs is Some && r >= job.max_runs->0 ==> final(state).next_run_at is None,
        final(state).last_run_at == old(state).last_run_at,
        final(state).last_success_at == old(state).last_success_at,
        final(state).last_error == old(state).last_error,
{
}

/// Advancing by triggers in a row is advancing by each in turn; the first that
/// has no next due time ends it, with that one counted.
pub proof fn law_advance_in_turn(
    job: JobView,
    state: JobStateView,
    times: Seq<int>,
    last: int,
    zone: Seq<char>,
)
    ensures
        advanced_for(job, state, Seq::empty(), zone) == (None::<ErrorView>, state),
        ({
            let before = advanced_for(job, state, times, zone);
            let after = advanced_for(job, state, times.push(last), zone);
            &&& before.0 is Some ==> after == before
            &&& before.0 is None ==> after.1.trigger_count == before.1.trigger_count + 1
            &&& before.0 is None ==> (match next_due(
                job,
                last,
                before.1.trigger_count + 1,
                zone,
            ) {
                Ok(next) => after.0 is None && after.1.next_run_at == next,
                Err(error) => after.0 == Some(error) && after.1.next_run_at
                    == before.1.next_run_at,
            })
        }),
{
    assert(times.push(last).drop_last() =~= times);
}

/// A due time is late exactly once more than 25 milliseconds have passed since.
pub proof fn law_call_missed(scheduled_at: UtcTime, now: UtcTime, r: bool)
    requires
        call_ensures(is_missed, (scheduled_at, now), r),
        time::in_calendar(scheduled_at@),
        time::in_calendar(now@),
    ensures
        r <==> now@ > scheduled_at@ + 25_000_000,
{
}

/// A next run is in the future exactly where there is one and it is after now.
pub proof fn law_call_in_future(next_run_at: Option<UtcTime>, now: UtcTime, r: bool)
    requires
        call_ensures(next_run_is_in_future, (next_run_at, now), r),
    ensures
        r <==> next_run_at is Some && next_run_at->0@ > now@,
{
}

} // verus!
