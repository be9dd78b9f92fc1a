//! The life of one run: the renewals of its lease, and what it leaves behind.
use std::collections::VecDeque;
use vstd::prelude::*;
use crate::execution_guard::{ExecutionGuardRenewal, ExecutionLease};
use crate::model::schedule::clone_text;
use crate::model::state::{self, push_history, JobState, RunRecord, RunStatus};
use crate::observer::SchedulerEvent;
use crate::scheduler::trigger::PendingTrigger;
use crate::time::UtcTime;

verus! {

/// A run that came to its end, and the number of its trigger.
#[derive(Debug)]
pub struct CompletedRun {
    pub record: RunRecord,
    pub trigger_count: u32,
}

/// A state after a run: when it started, when a run last succeeded, and the
/// error of the last run.
pub open spec fn state_after_run(state: JobState, record: RunRecord) -> JobState {
    match record.status {
        RunStatus::Success => JobState {
            last_run_at: Some(record.started_at),
            last_success_at: Some(record.finished_at),
            last_error: None,
            ..state
        },
        RunStatus::Failed => JobState {
            last_run_at: Some(record.started_at),
            last_error: record.error,
            ..state
        },
    }
}

/// A history after a run.
pub open spec fn history_after_run(
    history: Seq<RunRecord>,
    record: RunRecord,
    history_limit: usize,
) -> Seq<RunRecord> {
    if history_limit == 0 {
        history
    } else {
        state::kept(history.push(record), history_limit as nat)
    }
}

impl CompletedRun {
    /// The end of a run of a trigger: it failed where the task gave an error.
    pub fn of_trigger(
        trigger: PendingTrigger,
        started_at: UtcTime,
        finished_at: UtcTime,
        result: Result<(), String>,
    ) -> (r: Self)
        ensures
            r.trigger_count == trigger.trigger_count,
            r.record == (RunRecord {
                scheduled_at: trigger.scheduled_at,
                started_at,
                finished_at,
                catch_up: trigger.catch_up,
                status: if result is Ok {
                    RunStatus::Success
                } else {
                    RunStatus::Failed
                },
                error: match result {
                    Ok(_) => None,
                    Err(message) => Some(message),
                },
            }),
    {
        let (status, error) = match result {
            Ok(()) => (RunStatus::Success, None),
            Err(message) => (RunStatus::Failed, Some(message)),
        };
        CompletedRun {
            record: RunRecord {
                scheduled_at: trigger.scheduled_at,
                started_at,
                finished_at,
                catch_up: trigger.catch_up,
                status,
                error,
            },
            trigger_count: trigger.trigger_count,
        }
    }

    /// Writes the run into the state and the history of its job.
    pub fn apply_to(
        self,
        state: &mut JobState,
        history: &mut VecDeque<RunRecord>,
        history_limit: usize,
    ) -> (r: RunRecord)
        ensures
            r == self.record,
            *final(state) == state_after_run(*old(state), self.record),
            final(history)@ == history_after_run(old(history)@, self.record, history_limit),
    {
        state.last_run_at = Some(self.record.started_at);
        match self.record.status {
            RunStatus::Success => {
                state.last_success_at = Some(self.record.finished_at);
                state.last_error = None;
            },
            RunStatus::Failed => {
                state.last_error = clone_text(&self.record.error);
            },
        }
        push_history(history, self.record.clone(), history_limit);
        self.record
    }
}

/// Writes a run into the state and the history of its job, and gives back its
/// record and the number of its trigger.
pub fn apply_completed_run(
    state: &mut JobState,
    history: &mut VecDeque<RunRecord>,
    history_limit: usize,
    completed: CompletedRun,
) -> (r: (RunRecord, u32))
    ensures
        r == (completed.record, completed.trigger_count),
        *final(state) == state_after_run(*old(state), completed.record),
        final(history)@ == history_after_run(old(history)@, completed.record, history_limit),
{
    let trigger_count = completed.trigger_count;
    let record = completed.apply_to(state, history, history_limit);
    (record, trigger_count)
}

/// A run changes neither what is due next nor how many triggers were counted.
pub proof fn law_run_keeps_schedule(state: JobState, record: RunRecord)
    ensures
        state_after_run(state, record).next_run_at == state.next_run_at,
        state_after_run(state, record).trigger_count == state.trigger_count,
        state_after_run(state, record).job_id == state.job_id,
{
}

/// How an attempt to renew a lease ended.
#[derive(Debug, PartialEq, Eq)]
pub enum RenewalReply {
    Answered(ExecutionGuardRenewal),
    /// The attempt itself failed; with the text of the error.
    Failed(String),
}

/// What is known about the renewals of the lease of a run.
#[derive(Debug, Clone, Copy, PartialEq, Eq, Structural)]
pub struct LeaseRenewals {
    pub renewal_count: u32,
    pub failed_renewal_count: u32,
    /// Whether it was told that the lease is lost.
    pub lost_reported: bool,
    /// Whether the lease is still to be renewed.
    pub renewing: bool,
}

/// What follows from an attempt to renew a lease.
#[derive(Debug)]
pub struct RenewalTurn {
    pub events: Vec<SchedulerEvent>,
    /// Whether no further triggers are to be started.
    pub shut_down: bool,
}

/// The event of a lease that was renewed.
pub open spec fn renewed_event(
    job_id: String,
    lease: ExecutionLease,
    catch_up: bool,
    trigger_count: u32,
    renewals: LeaseRenewals,
) -> SchedulerEvent {
    SchedulerEvent::ExecutionGuardRenewed {
        job_id,
        resource_id: lease.resource_id,
        scope: lease.scope,
        lease_key: lease.lease_key,
        scheduled_at: lease.scheduled_at,
        catch_up,
        trigger_count,
        renewal_count: renewals.renewal_count,
    }
}

/// The event of a lease that was lost.
pub open spec fn lost_event(
    job_id: String,
    lease: ExecutionLease,
    catch_up: bool,
    trigger_count: u32,
    renewals: LeaseRenewals,
) -> SchedulerEvent {
    SchedulerEvent::ExecutionGuardLost {
        job_id,
        resource_id: lease.resource_id,
        scope: lease.scope,
        lease_key: lease.lease_key,
        scheduled_at: lease.scheduled_at,
        catch_up,
        trigger_count,
        renewal_count: renewals.renewal_count,
        failed_renewal_count: renewals.failed_renewal_count,
    }
}

/// The event of a renewal that failed.
pub open spec fn renew_failed_event(
    job_id: String,
    lease: ExecutionLease,
    catch_up: bool,
    trigger_count: u32,
    renewals: LeaseRenewals,
    error: String,
) -> SchedulerEvent {
    SchedulerEvent::ExecutionGuardRenewFailed {
        job_id,
        resource_id: lease.resource_id,
        scope: lease.scope,
        lease_key: lease.lease_key,
        scheduled_at: lease.scheduled_at,
        catch_up,
        trigger_count,
        renewal_count: renewals.renewal_count,
        failed_renewal_count: renewals.failed_renewal_count,
        error,
    }
}

/// The renewals after an attempt. A lease that is lost, or that could not be
/// renewed, is not renewed again.
pub open spec fn renewals_after(renewals: LeaseRenewals, reply: RenewalReply) -> LeaseRenewals {
    match reply {
        RenewalReply::Answered(ExecutionGuardRenewal::Renewed) => LeaseRenewals {
            renewal_count: (renewals.renewal_count + 1) as u32,
            ..renewals
        },
        RenewalReply::Answered(ExecutionGuardRenewal::Lost) => LeaseRenewals {
            lost_reported: true,
            renewing: false,
            ..renewals
        },
        RenewalReply::Failed(_) => LeaseRenewals {
            failed_renewal_count: (renewals.failed_renewal_count + 1) as u32,
            lost_reported: true,
            renewing: false,
            ..renewals
        },
    }
}

/// What is told after an attempt: a renewal, a failure, and the loss of the
/// lease if that was not told before.
pub open spec fn renewal_events(
    job_id: String,
    lease: ExecutionLease,
    catch_up: bool,
    trigger_count: u32,
    renewals: LeaseRenewals,
    reply: RenewalReply,
) -> Seq<SchedulerEvent> {
    let after = renewals_after(renewals, reply);
    let loss = if renewals.lost_reported {
        Seq::empty()
    } else {
        seq![lost_event(job_id, lease, catch_up, trigger_count, after)]
    };
    match reply {
        RenewalReply::Answered(ExecutionGuardRenewal::Renewed) => seq![
            renewed_event(job_id, lease, catch_up, trigger_count, after),
        ],
        RenewalReply::Answered(ExecutionGuardRenewal::Lost) => loss,
        RenewalReply::Failed(error) => seq![
            renew_failed_event(job_id, lease, catch_up, trigger_count, after, error),
        ] + loss,
    }
}

/// Whether the loss of a lease is news after an attempt.
pub open spec fn loss_is_news(renewals: LeaseRenewals, reply: RenewalReply) -> bool {
    !renewals.lost_reported && reply != RenewalReply::Answered(ExecutionGuardRenewal::Renewed)
}

/// A lease that was lost, or could not be renewed, is never renewed again, and
/// its loss is told once: after the first such attempt it is known, and no
/// later attempt makes it news.
pub proof fn law_loss_told_once(
    renewals: LeaseRenewals,
    first: RenewalReply,
    later: RenewalReply,
)
    requires
        first != RenewalReply::Answered(ExecutionGuardRenewal::Renewed),
    ensures
        !renewals_after(renewals, first).renewing,
        !loss_is_news(renewals_after(renewals, first), later),
        !renewals_after(renewals_after(renewals, first), later).renewing,
        renewals_after(renewals, RenewalReply::Answered(ExecutionGuardRenewal::Renewed)).renewing
            == renewals.renewing,
{
}

impl LeaseRenewals {
    /// A lease that was just given; `renews` tells whether it is to be renewed
    /// at all.
    pub fn started(renews: bool) -> (r: Self)
        ensures
            r == (LeaseRenewals {
                renewal_count: 0,
                failed_renewal_count: 0,
                lost_reported: false,
                renewing: renews,
            }),
    {
        LeaseRenewals {
            renewal_count: 0,
            failed_renewal_count: 0,
            lost_reported: false,
            renewing: renews,
        }
    }

    /// Takes in how an attempt to renew the lease of a run of a job ended.
    pub fn on_reply(
        &mut self,
        job_id: &String,
        lease: &ExecutionLease,
        catch_up: bool,
        trigger_count: u32,
        reply: RenewalReply,
    ) -> (r: RenewalTurn)
        requires
            old(self).renewal_count < u32::MAX,
            old(self).failed_renewal_count < u32::MAX,
        ensures
            *final(self) == renewals_after(*old(self), reply),
            r.events@ == renewal_events(*job_id, *lease, catch_up, trigger_count, *old(self), reply),
            r.shut_down == loss_is_news(*old(self), reply),
    {
        let mut events: Vec<SchedulerEvent> = Vec::new();
        match reply {
            RenewalReply::Answered(ExecutionGuardRenewal::Renewed) => {
                self.renewal_count = self.renewal_count + 1;
                events.push(self.renewed(job_id, lease, catch_up, trigger_count));
                RenewalTurn { events, shut_down: false }
            },
            RenewalReply::Answered(ExecutionGuardRenewal::Lost) => {
                let news = !self.lost_reported;
                self.lost_reported = true;
                self.renewing = false;
                if news {
                    events.push(self.lost(job_id, lease, catch_up, trigger_count));
                }
                assert(events@ =~= renewal_events(
                    *job_id,
                    *lease,
                    catch_up,
                    trigger_count,
                    *old(self),
                    reply,
                ));
                RenewalTurn { events, shut_down: news }
            },
            RenewalReply::Failed(error) => {
                let news = !self.lost_reported;
                self.failed_renewal_count = self.failed_renewal_count + 1;
                self.lost_reported = true;
                self.renewing = false;
                events.push(self.renew_failed(job_id, lease, catch_up, trigger_count, error));
                if news {
                    events.push(self.lost(job_id, lease, catch_up, trigger_count));
                }
                assert(events@ =~= renewal_events(
                    *job_id,
                    *lease,
                    catch_up,
                    trigger_count,
                    *old(self),
                    reply,
                ));
                RenewalTurn { events, shut_down: news }
            },
        }
    }

    fn renewed(
        &self,
        job_id: &String,
        lease: &ExecutionLease,
        catch_up: bool,
        trigger_count: u32,
    ) -> (r: SchedulerEvent)
        ensures
            r == renewed_event(*job_id, *lease, catch_up, trigger_count, *self),
    {
        SchedulerEvent::ExecutionGuardRenewed {
            job_id: job_id.clone(),
            resource_id: lease.resource_id.clone(),
            scope: lease.scope,
            lease_key: lease.lease_key.clone(),
            scheduled_at: lease.scheduled_at,
            catch_up,
            trigger_count,
            renewal_count: self.renewal_count,
        }
    }

    fn lost(
        &self,
        job_id: &String,
        lease: &ExecutionLease,
        catch_up: bool,
        trigger_count: u32,
    ) -> (r: SchedulerEvent)
        ensures
            r == lost_event(*job_id, *lease, catch_up, trigger_count, *self),
    {
        SchedulerEvent::ExecutionGuardLost {
            job_id: job_id.clone(),
            resource_id: lease.resource_id.clone(),
            scope: lease.scope,
            lease_key: lease.lease_key.clone(),
            scheduled_at: lease.scheduled_at,
            catch_up,
            trigger_count,
            renewal_count: self.renewal_count,
            failed_renewal_count: self.failed_renewal_count,
        }
    }

    fn renew_failed(
        &self,
        job_id: &String,
        lease: &ExecutionLease,
        catch_up: bool,
        trigger_count: u32,
        error: String,
    ) -> (r: SchedulerEvent)
        ensures
            r == renew_failed_event(*job_id, *lease, catch_up, trigger_count, *self, error),
    {
        SchedulerEvent::ExecutionGuardRenewFailed {
            job_id: job_id.clone(),
            resource_id: lease.resource_id.clone(),
            scope: lease.scope,
            lease_key: lease.lease_key.clone(),
            scheduled_at: lease.scheduled_at,
            catch_up,
            trigger_count,
            renewal_count: self.renewal_count,
            failed_renewal_count: self.failed_renewal_count,
            error,
        }
    }
}

/// A run leaves its start as the last run whatever its outcome. A success also
/// leaves its end as the last success and clears the error; a failure leaves
/// its error and keeps the last success.
pub proof fn law_call_apply(
    run: CompletedRun,
    state: &mut JobState,
    history: &mut VecDeque<RunRecord>,
    history_limit: usize,
    r: RunRecord,
)
    requires
        call_ensures(CompletedRun::apply_to, (run, state, history, history_limit), r),
    ensures
        r == run.record,
        final(state).job_id == old(state).job_id,
        final(state).trigger_count == old(state).trigger_count,
        final(state).next_run_at == old(state).next_run_at,
        final(state).last_run_at == Some(run.record.started_at),
        run.record.status == RunStatus::Success ==> final(state).last_success_at == Some(
            run.record.finished_at,
        ) && final(state).last_error is None,
        run.record.status == RunStatus::Failed ==> final(state).last_success_at == old(
            state
        ).last_success_at && final(state).last_error == run.record.error,
        history_limit == 0 ==> final(history)@ == old(history)@,
        history_limit > 0 && old(history)@.len() < history_limit ==> final(history)@ == old(
            history
        )@.push(run.record),
        history_limit > 0 && old(history)@.len() == history_limit ==> final(history)@ == old(
            history
        )@.drop_first().push(run.record),
{
    let before = old(history)@;
    if history_limit > 0 && before.len() == history_limit {
        assert(before.push(run.record).skip(1) =~= before.drop_first().push(run.record));
    }
}

/// Writing a run tells its record and the number of its trigger, and leaves
/// the same behind as the run itself does.
pub proof fn law_call_apply_completed(
    state: &mut JobState,
    history: &mut VecDeque<RunRecord>,
    history_limit: usize,
    completed: CompletedRun,
    r: (RunRecord, u32),
)
    requires
        call_ensures(apply_completed_run, (state, history, history_limit, completed), r),
    ensures
        r.0 == completed.record,
        r.1 == completed.trigger_count,
        final(state).job_id == old(state).job_id,
        final(state).trigger_count == old(state).trigger_count,
        final(state).next_run_at == old(state).next_run_at,
        final(state).last_run_at == Some(completed.record.started_at),
        completed.record.status == RunStatus::Success ==> final(state).last_success_at == Some(
            completed.record.finished_at,
        ) && final(state).last_error is None,
        completed.record.status == RunStatus::Failed ==> final(state).last_success_at == old(
            state
        ).last_success_at && final(state).last_error == completed.record.error,
        history_limit > 0 ==> 0 < final(history)@.len() <= history_limit && final(
            history
        )@.last() == completed.record,
        history_limit == 0 ==> final(history)@ == old(history)@,
{
}

/// A run failed exactly where its task gave an error, and that error is kept.
pub proof fn law_call_of_trigger(
    trigger: PendingTrigger,
    started_at: UtcTime,
    finished_at: UtcTime,
    result: Result<(), String>,
    r: CompletedRun,
)
    requires
        call_ensures(CompletedRun::of_trigger, (trigger, started_at, finished_at, result), r),
    ensures
        r.record.status == RunStatus::Failed <==> result is Err,
        result is Err ==> r.record.error == Some(result->Err_0),
        result is Ok ==> r.record.error is None,
        r.record.scheduled_at == trigger.scheduled_at,
        r.record.catch_up == trigger.catch_up,
        r.record.started_at == started_at,
        r.record.finished_at == finished_at,
        r.trigger_count == trigger.trigger_count,
{
}

/// A renewal is counted and told, and nothing else changes. Anything else ends
/// the renewals; a failure is counted and told. The first loss is told, with
/// the counts as they are by then, and asks for no further triggers.
pub proof fn law_call_renewal(
    renewals: &mut LeaseRenewals,
    job_id: &String,
    lease: &ExecutionLease,
    catch_up: bool,
    trigger_count: u32,
    reply: RenewalReply,
    r: RenewalTurn,
)
    requires
        call_ensures(
            LeaseRenewals::on_reply,
            (renewals, job_id, lease, catch_up, trigger_count, reply),
            r,
        ),
        old(renewals).renewal_count < u32::MAX,
        old(renewals).failed_renewal_count < u32::MAX,
    ensures
        reply == RenewalReply::Answered(ExecutionGuardRenewal::Renewed) ==> {
            &&& final(renewals).renewal_count == old(renewals).renewal_count + 1
            &&& final(renewals).failed_renewal_count == old(renewals).failed_renewal_count
            &&& final(renewals).lost_reported == old(renewals).lost_reported
            &&& final(renewals).renewing == old(renewals).renewing
            &&& !r.shut_down
            &&& r.events@.len() == 1
            &&& r.events@[0] == (SchedulerEvent::ExecutionGuardRenewed {
                job_id: *job_id,
                resource_id: lease.resource_id,
                scope: lease.scope,
                lease_key: lease.lease_key,
                scheduled_at: lease.scheduled_at,
                catch_up,
                trigger_count,
                renewal_count: final(renewals).renewal_count,
            })
        },
        reply != RenewalReply::Answered(ExecutionGuardRenewal::Renewed) ==> {
            &&& final(renewals).renewal_count == old(renewals).renewal_count
            &&& final(renewals).lost_reported
            &&& !final(renewals).renewing
            &&& r.shut_down == !old(renewals).lost_reported
            &&& !old(renewals).lost_reported ==> r.events@.len() > 0 && r.events@.last() == (
            SchedulerEvent::ExecutionGuardLost {
                job_id: *job_id,
                resource_id: lease.resource_id,
                scope: lease.scope,
                lease_key: lease.lease_key,
                scheduled_at: lease.scheduled_at,
                catch_up,
                trigger_count,
                renewal_count: old(renewals).renewal_count,
                failed_renewal_count: final(renewals).failed_renewal_count,
            })
        },
        reply == RenewalReply::Answered(ExecutionGuardRenewal::Lost) ==> final(
            renewals
        ).failed_renewal_count == old(renewals).failed_renewal_count && r.events@.len() == (if old(
            renewals
        ).lost_reported {
            0nat
        } else {
            1
        }),
        reply matches RenewalReply::Failed(error) ==> {
            &&& final(renewals).failed_renewal_count == old(renewals).failed_renewal_count + 1
            &&& r.events@.len() == (if old(renewals).lost_reported {
                1nat
            } else {
                2
            })
            &&& r.events@[0] == (SchedulerEvent::ExecutionGuardRenewFailed {
                job_id: *job_id,
                resource_id: lease.resource_id,
                scope: lease.scope,
                lease_key: lease.lease_key,
                scheduled_at: lease.scheduled_at,
                catch_up,
                trigger_count,
                renewal_count: old(renewals).renewal_count,
                failed_renewal_count: final(renewals).failed_renewal_count,
                error,
            })
        },
{
}

} // verus!
