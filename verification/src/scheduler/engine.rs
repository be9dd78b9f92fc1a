//! What a scheduler checks before it runs a job, and small decisions of its
//! run.
use vstd::prelude::*;
use crate::error::{self, ErrorView, InvalidJobKind, SchedulerError};
use crate::model::job::{Job, JobView};
use crate::model::schedule::{MissedRunPolicy, OverlapPolicy, Schedule, ScheduleView};
use crate::model::state::{JobState, JobStateView};
use crate::scheduler::boundaries;
use crate::scheduler::grouped_cron;
use crate::scheduler::interval_phase::{self, validate_grouped_interval};
use crate::scheduler::trigger_math;
use crate::scheduler::windowed_interval;
use crate::time::{Duration, UtcTime};
use crate::zone::Timezone;

verus! {

/// Whether the instants are in order.
pub open spec fn in_order(times: Seq<int>) -> bool {
    forall|i: int, j: int| 0 <= i <= j < times.len() ==> times[i] <= times[j]
}

/// What is wrong with a schedule; `None` is a valid one.
pub open spec fn schedule_error(
    schedule: ScheduleView,
    zone: Seq<char>,
    now: int,
) -> Option<ErrorView> {
    match schedule {
        ScheduleView::Interval(every) => if every == 0 {
            Some(error::zero_interval_error())
        } else {
            None
        },
        ScheduleView::StaggeredInterval { every, seed } => if every == 0 {
            Some(error::zero_interval_error())
        } else {
            None
        },
        ScheduleView::GroupedInterval {
            every,
            group_size,
            member_index,
            group_seed,
        } => if every == 0 {
            Some(error::zero_interval_error())
        } else {
            interval_phase::grouped_interval_error(group_size, member_index)
        },
        ScheduleView::WindowedInterval(windowed) => if windowed_interval::has_zero_interval(
            windowed,
        ) {
            Some(error::zero_interval_error())
        } else {
            None
        },
        ScheduleView::AtTimes(_) => None,
        ScheduleView::Cron(_) => None,
        ScheduleView::GroupedCron(grouped) => grouped_cron::grouped_cron_error(grouped, zone, now),
    }
}

/// What is wrong with a job; `None` is a valid one. Runs of a job whose state is
/// shared cannot overlap.
pub open spec fn job_error(
    job: JobView,
    coordinated: bool,
    zone: Seq<char>,
    now: int,
) -> Option<ErrorView> {
    match schedule_error(job.schedule, zone, now) {
        Some(error) => Some(error),
        None => if coordinated && job.overlap_policy == OverlapPolicy::AllowParallel {
            Some(
                error::other_job_error(
                    "coordinated scheduler does not support OverlapPolicy::AllowParallel"@,
                ),
            )
        } else {
            None
        },
    }
}

/// Whether a schedule is another one with its list of times put in order.
pub open spec fn is_ordered_version(schedule: ScheduleView, ordered: ScheduleView) -> bool {
    match (schedule, ordered) {
        (ScheduleView::AtTimes(times), ScheduleView::AtTimes(sorted)) => in_order(sorted)
            && sorted.to_multiset() == times.to_multiset(),
        _ => ordered == schedule,
    }
}

proof fn lemma_nanos_update(times: Seq<UtcTime>, place: int, value: UtcTime)
    requires
        0 <= place <= times.len(),
    ensures
        boundaries::nanos_of(times.insert(place, value)) == boundaries::nanos_of(times).insert(
            place,
            value@,
        ),
{
    assert(boundaries::nanos_of(times.insert(place, value)) =~= boundaries::nanos_of(times).insert(
        place,
        value@,
    ));
}

/// Puts instants in order.
pub fn sort_times(times: Vec<UtcTime>) -> (r: Vec<UtcTime>)
    ensures
        in_order(boundaries::nanos_of(r@)),
        boundaries::nanos_of(r@).to_multiset() == boundaries::nanos_of(times@).to_multiset(),
        r@.len() == times@.len(),
{
    let mut sorted: Vec<UtcTime> = Vec::new();
    let mut index: usize = 0;
    let ghost all = boundaries::nanos_of(times@);
    proof {
        assert(boundaries::nanos_of(sorted@) =~= all.take(0));
    }
    while index < times.len()
        invariant
            all == boundaries::nanos_of(times@),
            index <= times@.len(),
            sorted@.len() == index,
            in_order(boundaries::nanos_of(sorted@)),
            boundaries::nanos_of(sorted@).to_multiset() == all.take(index as int).to_multiset(),
        decreases times.len() - index,
    {
        let value = times[index];
        let ghost before = boundaries::nanos_of(sorted@);
        let mut place: usize = sorted.len();
        while place > 0 && value.earlier_than(&sorted[place - 1])
            invariant
                place <= sorted@.len(),
                before == boundaries::nanos_of(sorted@),
                in_order(before),
                forall|k: int| place <= k < sorted@.len() ==> value@ < (#[trigger] before[k]),
            decreases place,
        {
            assert(before[place - 1] == sorted@[place - 1]@);
            place = place - 1;
        }
        proof {
            if place > 0 {
                assert(before[place - 1] == sorted@[place - 1]@);
                assert(before[place - 1] <= value@);
            }
            lemma_nanos_update(sorted@, place as int, value);
            let after = before.insert(place as int, value@);
            assert forall|i: int, j: int| 0 <= i <= j < after.len() implies after[i] <= after[j] by {
                if i < place && place <= j {
                    assert(before[i] <= before[place - 1]);
                }
            }
            let longer = all.take(index + 1);
            assert(longer =~= all.take(index as int).push(value@));
            vstd::seq_lib::to_multiset_insert(before, place as int, value@);
            vstd::seq_lib::to_multiset_build(all.take(index as int), value@);
        }
        sorted.insert(place, value);
        index = index + 1;
    }
    assert(all.take(index as int) =~= all);
    sorted
}

/// Checks a job, and puts the list of an explicit schedule in order.
pub fn normalize_job(
    job: Job,
    coordinated: bool,
    timezone: &Timezone,
    now: UtcTime,
) -> (r: Result<Job, SchedulerError>)
    ensures
        match r {
            Ok(normal) => {
                &&& job_error(job@, coordinated, timezone@, now@) is None
                &&& normal@ == (JobView { schedule: normal@.schedule, ..job@ })
                &&& is_ordered_version(job@.schedule, normal@.schedule)
            },
            Err(error) => job_error(job@, coordinated, timezone@, now@) == Some(error@),
        },
{
    match &job.schedule {
        Schedule::Interval(every) => {
            if every.is_zero() {
                return Err(SchedulerError::invalid_zero_interval());
            }
        },
        Schedule::StaggeredInterval(staggered) => {
            if staggered.every.is_zero() {
                return Err(SchedulerError::invalid_zero_interval());
            }
        },
        Schedule::GroupedInterval(grouped) => {
            if grouped.every.is_zero() {
                return Err(SchedulerError::invalid_zero_interval());
            }
            match validate_grouped_interval(grouped) {
                Ok(()) => {},
                Err(error) => {
                    return Err(error);
                },
            }
        },
        Schedule::WindowedInterval(windowed) => match windowed_interval::validate(windowed) {
            Ok(()) => {},
            Err(error) => {
                return Err(error);
            },
        },
        Schedule::AtTimes(_) => {},
        Schedule::Cron(_) => {},
        Schedule::GroupedCron(grouped) => match grouped_cron::validate(grouped, timezone, now) {
            Ok(()) => {},
            Err(error) => {
                return Err(error);
            },
        },
    }
    if coordinated && job.overlap_policy == OverlapPolicy::AllowParallel {
        return Err(
            SchedulerError::invalid_job_with_kind(
                InvalidJobKind::Other,
                "coordinated scheduler does not support OverlapPolicy::AllowParallel",
            ),
        );
    }
    let ghost before = job@;
    let Job {
        job_id,
        schedule,
        max_runs,
        missed_run_policy,
        overlap_policy,
        execution_resource_id,
        guard_scope,
        time_window,
        time_window_alignment,
    } = job;
    let schedule = match schedule {
        Schedule::AtTimes(times) => Schedule::AtTimes(sort_times(times)),
        other => other,
    };
    Ok(
        Job {
            job_id,
            schedule,
            max_runs,
            missed_run_policy,
            overlap_policy,
            execution_resource_id,
            guard_scope,
            time_window,
            time_window_alignment,
        },
    )
}

/// Whether a saved state lost its next run: nothing is due although the
/// schedule repeats an interval and the limit of runs is not reached.
pub open spec fn needs_repair(job: JobView, state: JobStateView) -> bool {
    &&& state.next_run_at is None
    &&& match job.schedule {
        ScheduleView::Interval(_) => true,
        ScheduleView::StaggeredInterval { .. } => true,
        ScheduleView::GroupedInterval { .. } => true,
        _ => false,
    }
    &&& !trigger_math::runs_exhausted(job, state.trigger_count)
}

/// Whether a saved state lost its next run.
pub fn should_repair_interval_state(job: &Job, state: &JobState) -> (r: bool)
    ensures
        r == needs_repair(job@, state@),
{
    if state.next_run_at.is_some() {
        return false;
    }
    let repeats = match &job.schedule {
        Schedule::Interval(_) => true,
        Schedule::StaggeredInterval(_) => true,
        Schedule::GroupedInterval(_) => true,
        _ => false,
    };
    if !repeats {
        return false;
    }
    match job.max_runs {
        None => true,
        Some(max_runs) => state.trigger_count < max_runs,
    }
}

/// Whether a replay waits for the run that is active: overlapping runs would
/// not keep to the order.
pub fn should_wait_for_active_replay(job: &Job, active_count: usize) -> (r: bool)
    ensures
        r == (active_count > 0 && job@.missed_run_policy == MissedRunPolicy::ReplayAll
            && job@.overlap_policy != OverlapPolicy::AllowParallel),
{
    active_count > 0 && job.missed_run_policy == MissedRunPolicy::ReplayAll && job.overlap_policy
        != OverlapPolicy::AllowParallel
}

/// How long it is until the next run; `None` where there is none, or where it
/// is past.
pub fn sleep_until_next(next_run_at: Option<UtcTime>, now: UtcTime) -> (r: Option<Duration>)
    ensures
        match (next_run_at, r) {
            (Some(next), Some(span)) => next@ >= now@ && span@ == next@ - now@,
            (Some(next), None) => next@ < now@,
            (None, r) => r is None,
        },
{
    match next_run_at {
        None => None,
        Some(next) => {
            let gap: i128 = next.unix_nanos() - now.unix_nanos();
            if gap < 0 {
                None
            } else {
                let secs: i128 = gap / 1_000_000_000;
                let nanos: i128 = gap % 1_000_000_000;
                Duration::new(secs as u64, nanos as u32)
            }
        },
    }
}

/// A job is normalized without a change to anything but the list of its times,
/// which comes out in order with the same instants. An interval of length zero,
/// a group without members, a member outside its group and a grouped cron
/// schedule that does not hold are refused, and so are overlapping runs of a job
/// whose state is shared.
pub proof fn law_call_normalize(
    job: Job,
    coordinated: bool,
    timezone: &Timezone,
    now: UtcTime,
    r: Result<Job, SchedulerError>,
)
    requires
        call_ensures(normalize_job, (job, coordinated, timezone, now), r),
    ensures
        coordinated && job.overlap_policy == OverlapPolicy::AllowParallel ==> r is Err,
        r matches Ok(normal) ==> {
            &&& normal@.job_id == job@.job_id
            &&& normal@.max_runs == job@.max_runs
            &&& normal@.missed_run_policy == job@.missed_run_policy
            &&& normal@.overlap_policy == job@.overlap_policy
            &&& normal@.execution_resource_id == job@.execution_resource_id
            &&& normal@.guard_scope == job@.guard_scope
            &&& normal@.time_window == job@.time_window
            &&& normal@.time_window_alignment == job@.time_window_alignment
            &&& job@.schedule !is AtTimes ==> normal@.schedule == job@.schedule
            &&& job@.schedule matches ScheduleView::AtTimes(times) ==> {
                &&& normal@.schedule matches ScheduleView::AtTimes(sorted)
                &&& sorted.to_multiset() == times.to_multiset()
                &&& forall|i: int, j: int| 0 <= i <= j < sorted.len() ==> sorted[i] <= sorted[j]
            }
        },
        !(coordinated && job.overlap_policy == OverlapPolicy::AllowParallel) ==> {
            &&& job@.schedule matches ScheduleView::Interval(every) ==> (r is Ok <==> every != 0)
            &&& job@.schedule matches ScheduleView::StaggeredInterval { every, seed } ==> (r is Ok
                <==> every != 0)
            &&& job@.schedule matches ScheduleView::GroupedInterval {
                every,
                group_size,
                member_index,
                group_seed,
            } ==> (r is Ok <==> every != 0 && member_index < group_size)
            &&& job@.schedule matches ScheduleView::WindowedInterval(windowed) ==> (r is Ok
                <==> windowed.default_every != Some(0int) && forall|i: int|
                0 <= i < windowed.windows.len() ==> (#[trigger] windowed.windows[i]).1 != Some(
                    0int,
                ))
            &&& job@.schedule is AtTimes || job@.schedule is Cron ==> r is Ok
        },
        job@.schedule matches ScheduleView::Interval(every) ==> every == 0 ==> r is Err
            && r->Err_0@ == ErrorView::InvalidJob(
            InvalidJobKind::ZeroInterval,
            "interval schedule must be greater than zero"@,
        ),
        coordinated && job.overlap_policy == OverlapPolicy::AllowParallel && (job@.schedule
            is AtTimes || job@.schedule is Cron) ==> r->Err_0@ == ErrorView::InvalidJob(
            InvalidJobKind::Other,
            "coordinated scheduler does not support OverlapPolicy::AllowParallel"@,
        ),
{
}

/// A grouped cron job is refused exactly where its schedule does not hold now,
/// with the same error, or where its runs may not overlap.
pub proof fn law_call_normalize_grouped_cron(
    job: Job,
    coordinated: bool,
    timezone: &Timezone,
    now: UtcTime,
    valid: Result<(), SchedulerError>,
    r: Result<Job, SchedulerError>,
)
    requires
        call_ensures(normalize_job, (job, coordinated, timezone, now), r),
        job.schedule is GroupedCron,
        call_ensures(grouped_cron::validate, (&job.schedule->GroupedCron_0, timezone, now), valid),
    ensures
        valid is Err ==> r is Err && r->Err_0@ == valid->Err_0@,
        valid is Ok ==> (r is Ok <==> !(coordinated && job.overlap_policy
            == OverlapPolicy::AllowParallel)),
{
}

/// A state lost its next run exactly where it has none although the job
/// repeats an interval and has runs left.
pub proof fn law_call_should_repair(job: &Job, state: &JobState, r: bool)
    requires
        call_ensures(should_repair_interval_state, (job, state), r),
    ensures
        state.next_run_at is Some ==> !r,
        job.schedule is AtTimes || job.schedule is Cron || job.schedule is GroupedCron
            || job.schedule is WindowedInterval ==> !r,
        job.max_runs matches Some(limit) ==> state.trigger_count >= limit ==> !r,
        state.next_run_at is None && (job.schedule is Interval || job.schedule
            is StaggeredInterval || job.schedule is GroupedInterval) && (job.max_runs is None
            || state.trigger_count < job.max_runs->0) ==> r,
{
}

/// Sleeping as long as is said from now on ends at the next run; a run that is
/// past is not slept for.
pub proof fn law_call_sleep(next_run_at: Option<UtcTime>, now: UtcTime, r: Option<Duration>)
    requires
        call_ensures(sleep_until_next, (next_run_at, now), r),
    ensures
        r is Some <==> next_run_at is Some && next_run_at->0@ >= now@,
        r is Some ==> now@ + r->0@ == next_run_at->0@,
{
}

/// A replay waits exactly while a run is active and runs may not overlap.
pub proof fn law_call_replay_waits(job: &Job, active_count: usize, r: bool)
    requires
        call_ensures(should_wait_for_active_replay, (job, active_count), r),
    ensures
        active_count == 0 ==> !r,
        job.missed_run_policy != MissedRunPolicy::ReplayAll ==> !r,
        job.overlap_policy == OverlapPolicy::AllowParallel ==> !r,
        active_count > 0 && job.missed_run_policy == MissedRunPolicy::ReplayAll && (
        job.overlap_policy == OverlapPolicy::Forbid || job.overlap_policy
            == OverlapPolicy::QueueOne) ==> r,
{
}

} // verus!
