//! What is known about a job between its runs, and about the runs that ended.
use std::collections::VecDeque;
use vstd::prelude::*;
use crate::model::schedule::{self, clone_text};
use crate::model::time_window::RunSkipReason;
use crate::time::{self, UtcTime};

verus! {

#[derive(Debug, Clone, Copy, PartialEq, Eq, Structural)]
pub enum RunStatus {
    Success,
    Failed,
}

/// A run that came to its end.
#[derive(Debug, PartialEq, Eq)]
pub struct RunRecord {
    pub scheduled_at: UtcTime,
    pub started_at: UtcTime,
    pub finished_at: UtcTime,
    pub catch_up: bool,
    pub status: RunStatus,
    pub error: Option<String>,
}

impl Clone for RunRecord {
    fn clone(&self) -> (r: Self)
        ensures
            r == *self,
    {
        RunRecord {
            scheduled_at: self.scheduled_at,
            started_at: self.started_at,
            finished_at: self.finished_at,
            catch_up: self.catch_up,
            status: self.status,
            error: clone_text(&self.error),
        }
    }
}

/// What a [`JobState`] says; instants in nanoseconds.
pub struct JobStateView {
    pub job_id: Seq<char>,
    pub trigger_count: nat,
    pub last_run_at: Option<int>,
    pub last_success_at: Option<int>,
    pub next_run_at: Option<int>,
    pub last_error: Option<Seq<char>>,
}

/// The persistent state of a job.
#[derive(Debug, PartialEq, Eq)]
pub struct JobState {
    pub job_id: String,
    pub trigger_count: u32,
    pub last_run_at: Option<UtcTime>,
    pub last_success_at: Option<UtcTime>,
    pub next_run_at: Option<UtcTime>,
    pub last_error: Option<String>,
}

impl View for JobState {
    type V = JobStateView;

    open spec fn view(&self) -> JobStateView {
        JobStateView {
            job_id: self.job_id@,
            trigger_count: self.trigger_count as nat,
            last_run_at: time::instant_view(self.last_run_at),
            last_success_at: time::instant_view(self.last_success_at),
            next_run_at: time::instant_view(self.next_run_at),
            last_error: schedule::text_view(self.last_error),
        }
    }
}

impl Clone for JobState {
    fn clone(&self) -> (r: Self)
        ensures
            r == *self,
    {
        JobState {
            job_id: self.job_id.clone(),
            trigger_count: self.trigger_count,
            last_run_at: self.last_run_at,
            last_success_at: self.last_success_at,
            next_run_at: self.next_run_at,
            last_error: clone_text(&self.last_error),
        }
    }
}

/// The state of a job that has not run yet.
pub open spec fn new_state(job_id: Seq<char>, next_run_at: Option<int>) -> JobStateView {
    JobStateView {
        job_id,
        trigger_count: 0,
        last_run_at: None,
        last_success_at: None,
        next_run_at,
        last_error: None,
    }
}

impl JobState {
    pub fn new(job_id: &str, next_run_at: Option<UtcTime>) -> (r: Self)
        ensures
            r@ == new_state(job_id@, time::instant_view(next_run_at)),
    {
        JobState {
            job_id: job_id.to_owned(),
            trigger_count: 0,
            last_run_at: None,
            last_success_at: None,
            next_run_at,
            last_error: None,
        }
    }
}

/// What a scheduler reports when it stops.
#[derive(Debug, Clone, PartialEq, Eq)]
pub struct SchedulerReport {
    pub job_id: String,
    pub state: JobState,
    pub history: Vec<RunRecord>,
    pub last_skip_reason: Option<RunSkipReason>,
}

/// The last `limit` of the records, or all of them where there are fewer.
pub open spec fn kept(records: Seq<RunRecord>, limit: nat) -> Seq<RunRecord> {
    if records.len() <= limit {
        records
    } else {
        records.skip(records.len() - limit)
    }
}

/// Adds a record and drops the oldest ones past the limit; a limit of zero
/// keeps the history as it is.
pub fn push_history(history: &mut VecDeque<RunRecord>, record: RunRecord, history_limit: usize)
    ensures
        final(history)@ == if history_limit == 0 {
            old(history)@
        } else {
            kept(old(history)@.push(record), history_limit as nat)
        },
{
    if history_limit == 0 {
        return;
    }
    history.push_back(record);
    let ghost all = history@;
    assert(all.skip(0) =~= all);
    while history.len() > history_limit
        invariant
            history_limit > 0,
            history@.len() <= all.len(),
            history@ == all.skip(all.len() - history@.len()),
            history@.len() < all.len() ==> history@.len() >= history_limit,
        decreases history@.len(),
    {
        let ghost before = history@;
        let _ = history.pop_front();
        assert(history@ =~= all.skip(all.len() - history@.len()));
    }
}

/// A history that keeps to its limit still does after a push, and its newest
/// record is the one that was pushed.
pub proof fn law_history_bounded(records: Seq<RunRecord>, record: RunRecord, limit: nat)
    requires
        limit > 0,
    ensures
        kept(records.push(record), limit).len() <= limit,
        kept(records.push(record), limit).last() == record,
{
}

/// A history keeps its newest records in the order in which they came: from the
/// end on, each one is what it was before the push, and as many are dropped
/// from the front as there are too many.
pub proof fn law_call_push_history(
    history: &mut VecDeque<RunRecord>,
    record: RunRecord,
    history_limit: usize,
)
    requires
        call_ensures(push_history, (history, record, history_limit), ()),
    ensures
        history_limit == 0 ==> final(history)@ == old(history)@,
        history_limit > 0 ==> {
            let count = final(history)@.len();
            let before = old(history)@.len();
            &&& count == (if before < history_limit {
                (before + 1) as nat
            } else {
                history_limit as nat
            })
            &&& final(history)@[count - 1] == record
            &&& forall|back: int|
                1 < back <= count ==> #[trigger] final(history)@[count - back] == old(
                    history
                )@[before + 1 - back]
        },
{
}

/// A job that has not run yet has no runs, no error and nothing counted.
pub proof fn law_call_new_state(job_id: &str, next_run_at: Option<UtcTime>, r: JobState)
    requires
        call_ensures(JobState::new, (job_id, next_run_at), r),
    ensures
        r.job_id@ == job_id@,
        r.trigger_count == 0,
        r@.next_run_at == time::instant_view(next_run_at),
        r.last_run_at is None,
        r.last_success_at is None,
        r.last_error is None,
{
}

} // verus!
