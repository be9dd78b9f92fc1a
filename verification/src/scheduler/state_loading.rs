//! The state that a job starts from.
use vstd::prelude::*;
use crate::error::{ErrorView, SchedulerError};
use crate::model::job::{Job, JobView};
use crate::model::state::{self, JobState, JobStateView};
use crate::scheduler::trigger_math::{self, initial_next_run_at};
use crate::time::UtcTime;
use crate::zone::Timezone;

verus! {

/// The state of a job that has not run yet: due as its schedule says.
pub open spec fn initial_state(
    job: JobView,
    now: int,
    zone: Seq<char>,
) -> Result<JobStateView, ErrorView> {
    match trigger_math::initial_due(job, now, zone) {
        Ok(due) => Ok(state::new_state(job.job_id, due)),
        Err(error) => Err(error),
    }
}

pub open spec fn state_result(
    result: Result<JobState, SchedulerError>,
) -> Result<JobStateView, ErrorView> {
    match result {
        Ok(state) => Ok(state@),
        Err(error) => Err(error@),
    }
}

/// The state of a job that has not run yet.
pub fn initial_runtime_state(
    job: &Job,
    now: UtcTime,
    timezone: &Timezone,
) -> (r: Result<JobState, SchedulerError>)
    ensures
        state_result(r) == initial_state(job@, now@, timezone@),
{
    match initial_next_run_at(job, now, timezone) {
        Ok(next_run_at) => Ok(JobState::new(job.job_id.as_str(), next_run_at)),
        Err(error) => Err(error),
    }
}

} // verus!
