//! The plan of a job: everything about it but the work itself.
use vstd::prelude::*;
use crate::execution_guard::ExecutionGuardScope;
use crate::model::schedule::{
    MissedRunPolicy, OverlapPolicy, Schedule, ScheduleView, TimeWindowAlignment,
};
use crate::model::time_window::{self, JobTimeWindow, RunSkipReason, WindowView};
use crate::time::UtcTime;
use crate::zone::Timezone;

verus! {

/// Whether a trigger comes from the schedule or was asked for by hand.
#[derive(Debug, Clone, Copy, PartialEq, Eq, Structural)]
pub enum TriggerSource {
    Scheduled,
    Manual,
}

/// What is handed to a run besides its dependencies.
#[derive(Debug, Clone)]
pub struct RunContext {
    pub job_id: String,
    pub scheduled_at: UtcTime,
    pub catch_up: bool,
    /// The scheduler-configured timezone for downstream task logic.
    pub timezone: Timezone,
}

/// What a [`Job`] says.
pub struct JobView {
    pub job_id: Seq<char>,
    pub schedule: ScheduleView,
    pub max_runs: Option<u32>,
    pub missed_run_policy: MissedRunPolicy,
    pub overlap_policy: OverlapPolicy,
    pub execution_resource_id: Seq<char>,
    pub guard_scope: ExecutionGuardScope,
    pub time_window: Option<WindowView>,
    pub time_window_alignment: TimeWindowAlignment,
}

#[derive(Debug)]
pub struct Job {
    pub job_id: String,
    pub schedule: Schedule,
    pub max_runs: Option<u32>,
    pub missed_run_policy: MissedRunPolicy,
    pub overlap_policy: OverlapPolicy,
    pub execution_resource_id: String,
    pub guard_scope: ExecutionGuardScope,
    pub time_window: Option<JobTimeWindow>,
    pub time_window_alignment: TimeWindowAlignment,
}

pub open spec fn window_view(window: Option<JobTimeWindow>) -> Option<WindowView> {
    match window {
        Some(value) => Some(value@),
        None => None,
    }
}

impl View for Job {
    type V = JobView;

    open spec fn view(&self) -> JobView {
        JobView {
            job_id: self.job_id@,
            schedule: self.schedule@,
            max_runs: self.max_runs,
            missed_run_policy: self.missed_run_policy,
            overlap_policy: self.overlap_policy,
            execution_resource_id: self.execution_resource_id@,
            guard_scope: self.guard_scope,
            time_window: window_view(self.time_window),
            time_window_alignment: self.time_window_alignment,
        }
    }
}

impl Clone for Job {
    fn clone(&self) -> (r: Self)
        ensures
            r@ == self@,
    {
        let time_window = match &self.time_window {
            Some(window) => Some(window.clone()),
            None => None,
        };
        Job {
            job_id: self.job_id.clone(),
            schedule: self.schedule.clone(),
            max_runs: self.max_runs,
            missed_run_policy: self.missed_run_policy,
            overlap_policy: self.overlap_policy,
            execution_resource_id: self.execution_resource_id.clone(),
            guard_scope: self.guard_scope,
            time_window,
            time_window_alignment: self.time_window_alignment,
        }
    }
}

/// A job as it is before anything about it is configured.
pub open spec fn plain_job(job_id: Seq<char>, schedule: ScheduleView) -> JobView {
    JobView {
        job_id,
        schedule,
        max_runs: None,
        missed_run_policy: MissedRunPolicy::CatchUpOnce,
        overlap_policy: OverlapPolicy::Forbid,
        execution_resource_id: job_id,
        guard_scope: ExecutionGuardScope::Occurrence,
        time_window: None,
        time_window_alignment: TimeWindowAlignment::Disabled,
    }
}

/// Why a job does not run at an instant, if it does not.
pub open spec fn skip_reason(job: JobView, now: int, zone: Seq<char>) -> Option<RunSkipReason> {
    match job.time_window {
        Some(window) => if time_window::open_at(window, now, zone) {
            None
        } else {
            Some(RunSkipReason::OutsideTimeWindow)
        },
        None => None,
    }
}

impl Job {
    /// The policies of a job that does not choose others: missed runs are
    /// caught up once, and overlapping runs are forbidden.
    pub fn default_policies() -> (r: (MissedRunPolicy, OverlapPolicy))
        ensures
            r == (MissedRunPolicy::CatchUpOnce, OverlapPolicy::Forbid),
    {
        (MissedRunPolicy::CatchUpOnce, OverlapPolicy::Forbid)
    }

    /// Create the plan of a job.
    pub fn without_deps(job_id: &str, schedule: Schedule) -> (r: Self)
        ensures
            r@ == plain_job(job_id@, schedule@),
    {
        let policies = Self::default_policies();
        Job {
            job_id: job_id.to_owned(),
            schedule,
            max_runs: None,
            missed_run_policy: policies.0,
            overlap_policy: policies.1,
            execution_resource_id: job_id.to_owned(),
            guard_scope: ExecutionGuardScope::Occurrence,
            time_window: None,
            time_window_alignment: TimeWindowAlignment::Disabled,
        }
    }

    /// Limit how many triggers this job can consume before it exits.
    ///
    /// This applies to every kind of schedule.
    /// A value of `0` makes the job exit immediately without running.
    pub fn with_max_runs(self, max_runs: u32) -> (r: Self)
        ensures
            r@ == (JobView { max_runs: Some(max_runs), ..self@ }),
    {
        Job { max_runs: Some(max_runs), ..self }
    }

    pub fn with_missed_run_policy(self, policy: MissedRunPolicy) -> (r: Self)
        ensures
            r@ == (JobView { missed_run_policy: policy, ..self@ }),
    {
        Job { missed_run_policy: policy, ..self }
    }

    pub fn with_overlap_policy(self, policy: OverlapPolicy) -> (r: Self)
        ensures
            r@ == (JobView { overlap_policy: policy, ..self@ }),
    {
        Job { overlap_policy: policy, ..self }
    }

    /// Restrict execution to local weekdays and time segments.
    pub fn with_time_window(self, window: JobTimeWindow) -> (r: Self)
        ensures
            r@ == (JobView { time_window: Some(window@), ..self@ }),
    {
        Job { time_window: Some(window), ..self }
    }

    /// Shift interval-style due times forward into the time window.
    pub fn with_time_window_alignment(self) -> (r: Self)
        ensures
            r@ == (JobView {
                time_window_alignment: TimeWindowAlignment::AlignToNextWindow,
                ..self@
            }),
    {
        Job { time_window_alignment: TimeWindowAlignment::AlignToNextWindow, ..self }
    }

    /// Why the job does not run at `now`, if it does not.
    pub fn skip_reason_at(&self, now: UtcTime, timezone: &Timezone) -> (r: Option<RunSkipReason>)
        ensures
            r == skip_reason(self@, now@, timezone@),
    {
        match &self.time_window {
            Some(window) => {
                if window.matches(now, timezone) {
                    None
                } else {
                    Some(RunSkipReason::OutsideTimeWindow)
                }
            },
            None => None,
        }
    }
}

/// A time window holds for every schedule and policy: a job that has one skips
/// what falls outside, and nothing that falls inside; a job that has none skips
/// nothing.
pub proof fn law_window_decides_skip(job: JobView, now: int, zone: Seq<char>)
    ensures
        job.time_window is None ==> skip_reason(job, now, zone) is None,
        job.time_window matches Some(window) && time_window::open_at(window, now, zone)
            ==> skip_reason(job, now, zone) is None,
        job.time_window matches Some(window) && !time_window::open_at(window, now, zone)
            ==> skip_reason(job, now, zone) == Some(RunSkipReason::OutsideTimeWindow),
{
}

/// Only the window of a job decides what it skips: two jobs with the same window
/// skip the same.
pub proof fn law_skip_by_window_alone(job: JobView, other: JobView, now: int, zone: Seq<char>)
    requires
        job.time_window == other.time_window,
    ensures
        skip_reason(job, now, zone) == skip_reason(other, now, zone),
{
}

/// A call gives a reason to skip exactly where the job has a window and that is
/// closed at the moment, whatever the schedule of the job.
pub proof fn law_skip_reason_at(
    job: &Job,
    now: UtcTime,
    timezone: &Timezone,
    r: Option<RunSkipReason>,
)
    requires
        call_ensures(Job::skip_reason_at, (job, now, timezone), r),
    ensures
        r is Some <==> job.time_window is Some && !time_window::open_at(
            job.time_window->0@,
            now@,
            timezone@,
        ),
        r is Some ==> r == Some(RunSkipReason::OutsideTimeWindow),
{
}

/// A job that configures nothing is its own resource, catches up once, forbids
/// overlap, guards each occurrence, and has neither a limit nor a window.
pub proof fn law_call_plain_job(job_id: &str, schedule: Schedule, r: Job)
    requires
        call_ensures(Job::without_deps, (job_id, schedule), r),
    ensures
        r@.job_id == job_id@,
        r@.schedule == schedule@,
        r@.max_runs is None,
        r@.missed_run_policy == MissedRunPolicy::CatchUpOnce,
        r@.overlap_policy == OverlapPolicy::Forbid,
        r@.execution_resource_id == job_id@,
        r@.guard_scope == ExecutionGuardScope::Occurrence,
        r@.time_window is None,
        r@.time_window_alignment == TimeWindowAlignment::Disabled,
{
}

} // verus!
