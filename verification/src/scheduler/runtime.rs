//! The loop that runs a job, as a machine: each step takes in what happened and
//! says what is to be done next.
use vstd::prelude::*;
use crate::error::{ErrorView, SchedulerError};
use crate::model::job::{self, Job, TriggerSource};
use crate::model::schedule::{MissedRunPolicy, OverlapPolicy, TerminalStatePolicy};
use crate::model::state::{JobState, JobStateView};
use crate::model::time_window::RunSkipReason;
use crate::observer::{PauseScope, SchedulerEvent, SchedulerStopReason};
use crate::scheduler::control::{
    self, CommandDisposition, ControlSignal, ManualTriggerRequest, SchedulerMode, StopSignal,
};
use crate::scheduler::engine::should_wait_for_active_replay;
use crate::scheduler::overlap::{self, dispatch_trigger, take_queued_if_idle, OverlapAction};
use crate::scheduler::trigger::{
    try_next_trigger, DecisionView, PendingTrigger, TriggerDecision, TriggerView,
};
use crate::scheduler::trigger_math::{
    self, advance_state_for_manual_trigger, next_run_is_in_future,
};
use crate::time::UtcTime;
use crate::zone::Timezone;

verus! {

/// How long a paused loop waits before it looks again, in milliseconds.
pub const PAUSED_POLL_MILLIS: u64 = 50;

/// What the loop waits for.
#[derive(Debug, Clone, Copy, PartialEq, Eq)]
pub enum Phase {
    Refreshing,
    ChangingMode,
    RunningQueued,
    Reclaiming,
    TakingManual,
    CheckingDue,
    StartingDue,
    RecordingDue,
    SavingAdvance,
    SavingSkip { trigger: PendingTrigger, reason: RunSkipReason },
    Deleting,
    Waiting,
    Stopped,
}

/// What the loop remembers from step to step.
#[derive(Debug, Clone, Copy)]
pub struct RuntimeLoop {
    /// How many runs are active.
    pub active_count: usize,
    /// The trigger that waits for the active run to end.
    pub queued_trigger: Option<PendingTrigger>,
    pub last_skip_reason: Option<RunSkipReason>,
    /// The number of the last command to change the mode that was followed.
    pub last_seen_mode_command: u64,
    /// The commands as they were at the start of this turn.
    pub control: ControlSignal,
    pub phase: Phase,
}

/// What does not change while a job runs.
#[derive(Debug)]
pub struct LoopRules {
    pub timezone: Timezone,
    pub terminal_state_policy: TerminalStatePolicy,
    pub pause_scope: PauseScope,
}

/// What is seen at a step besides the state of the job.
#[derive(Debug, Clone, Copy)]
pub struct Sight {
    pub now: UtcTime,
    pub paused: bool,
    pub control: ControlSignal,
    /// Whether a trigger was asked for and not served yet.
    pub manual_pending: bool,
}

/// What is to be done next.
#[derive(Debug)]
pub enum LoopAction {
    /// Read the state and the commands again.
    Refresh,
    SetMode(SchedulerMode),
    RunQueued(PendingTrigger),
    /// Take over a claim that was left behind.
    TryReclaim,
    /// Take the trigger that was asked for.
    TakeManual,
    /// Read the clock again, for whether the run that is due may be made.
    CheckDue { candidate_state: JobState, trigger: PendingTrigger },
    /// Save the state and start the run.
    StartDue { candidate_state: JobState, trigger: PendingTrigger },
    /// Save the state; the run does not start now.
    RecordDue { candidate_state: JobState, trigger: PendingTrigger },
    Save { candidate_state: JobState },
    DeleteTerminal,
    /// Wait for a command, and besides for the end of a run, for an instant,
    /// and for so many milliseconds.
    Wait { for_run: bool, until: Option<UtcTime>, poll_millis: Option<u64> },
    Stop,
}

/// What follows from a step: the mode that took effect, which is to be noted
/// first; what is told; and what is to be done.
#[derive(Debug)]
pub struct Turn {
    pub applied_mode: Option<SchedulerMode>,
    pub events: Vec<SchedulerEvent>,
    pub action: LoopAction,
}

/// What follows from a step, and what the loop then remembers.
pub struct TurnView {
    pub memory: RuntimeLoop,
    pub applied_mode: Option<SchedulerMode>,
    pub events: Seq<SchedulerEvent>,
    pub action: LoopAction,
}

/// Whether a turn, and what the loop remembers after it, are what they should
/// be.
pub open spec fn is_turn(turn: Turn, memory: RuntimeLoop, expected: TurnView) -> bool {
    &&& memory == expected.memory
    &&& turn.applied_mode == expected.applied_mode
    &&& turn.events@ == expected.events
    &&& turn.action == expected.action
}

/// A step after which nothing is told.
pub open spec fn quietly(memory: RuntimeLoop, phase: Phase, action: LoopAction) -> TurnView {
    TurnView {
        memory: RuntimeLoop { phase, ..memory },
        applied_mode: None,
        events: Seq::empty(),
        action,
    }
}

/// A step after which the loop begins a new turn.
pub open spec fn again(memory: RuntimeLoop) -> TurnView {
    quietly(memory, Phase::Refreshing, LoopAction::Refresh)
}

pub open spec fn stopped_event(
    job: Job,
    state: JobState,
    reason: SchedulerStopReason,
) -> SchedulerEvent {
    SchedulerEvent::SchedulerStopped {
        job_id: job.job_id,
        trigger_count: state.trigger_count,
        reason,
    }
}

pub open spec fn deleted_event(job: Job, state: JobState) -> SchedulerEvent {
    SchedulerEvent::TerminalStateDeleted { job_id: job.job_id, trigger_count: state.trigger_count }
}

pub open spec fn skipped_event(
    job: Job,
    trigger: PendingTrigger,
    reason: RunSkipReason,
) -> SchedulerEvent {
    SchedulerEvent::RunSkipped {
        job_id: job.job_id,
        scheduled_at: trigger.scheduled_at,
        catch_up: trigger.catch_up,
        trigger_count: trigger.trigger_count,
        reason,
    }
}

pub open spec fn mode_event(
    job: Job,
    state: JobState,
    mode: SchedulerMode,
    scope: PauseScope,
) -> SchedulerEvent {
    match mode {
        SchedulerMode::Paused => SchedulerEvent::SchedulerPaused {
            job_id: job.job_id,
            trigger_count: state.trigger_count,
            scope,
        },
        SchedulerMode::Running => SchedulerEvent::SchedulerResumed {
            job_id: job.job_id,
            trigger_count: state.trigger_count,
            scope,
        },
    }
}

/// Why a scheduler that was told to stop stopped.
pub open spec fn stop_reason(signal: StopSignal) -> SchedulerStopReason {
    match signal {
        StopSignal::Cancel => SchedulerStopReason::Cancelled,
        StopSignal::Shutdown => SchedulerStopReason::Shutdown,
    }
}

/// Whether a job is finished: nothing is due, active, queued or asked for, and
/// it is not paused.
pub open spec fn finished(memory: RuntimeLoop, state: JobState, sight: Sight) -> bool {
    &&& !sight.paused
    &&& state.next_run_at is None
    &&& memory.active_count == 0
    &&& memory.queued_trigger is None
    &&& !sight.manual_pending
}

/// The instant that the loop sleeps until: the next run, where it is in the
/// future and nothing keeps it from being started.
pub open spec fn sleep_end(memory: RuntimeLoop, state: JobState, sight: Sight) -> Option<UtcTime> {
    match state.next_run_at {
        Some(next) => if sight.control.stop_signal is None && sight.control.desired_mode
            == SchedulerMode::Running && !sight.paused && memory.queued_trigger is None
            && !sight.manual_pending && next@ > sight.now@ {
            Some(next)
        } else {
            None
        },
        None => None,
    }
}

/// How long the loop waits at most: it looks again after a while where the job
/// is paused.
pub open spec fn poll_of(paused: bool) -> Option<u64> {
    if paused {
        Some(PAUSED_POLL_MILLIS)
    } else {
        None
    }
}

/// Nothing is to be started now: the job is finished, or the loop waits.
pub open spec fn settled(
    memory: RuntimeLoop,
    job: Job,
    rules: LoopRules,
    state: JobState,
    sight: Sight,
) -> TurnView {
    if finished(memory, state, sight) {
        if rules.terminal_state_policy == TerminalStatePolicy::Delete {
            quietly(memory, Phase::Deleting, LoopAction::DeleteTerminal)
        } else {
            TurnView {
                events: seq![stopped_event(job, state, SchedulerStopReason::Terminal)],
                ..quietly(memory, Phase::Stopped, LoopAction::Stop)
            }
        }
    } else {
        quietly(
            memory,
            Phase::Waiting,
            LoopAction::Wait {
                for_run: memory.active_count > 0,
                until: sleep_end(memory, state, sight),
                poll_millis: poll_of(sight.paused),
            },
        )
    }
}

/// Whether anything may be started: no command to stop was given at the start
/// of the turn, and the job is not paused.
pub open spec fn may_start(memory: RuntimeLoop, sight: Sight) -> bool {
    memory.control.stop_signal is None && !sight.paused
}

/// What is started first: the trigger that waited, once nothing is active. It
/// is skipped where the job may not run now.
pub open spec fn scheduled(
    memory: RuntimeLoop,
    job: Job,
    rules: LoopRules,
    state: JobState,
    sight: Sight,
) -> TurnView {
    if !may_start(memory, sight) {
        settled(memory, job, rules, state, sight)
    } else if memory.active_count == 0 && memory.queued_trigger is Some {
        let trigger = memory.queued_trigger->0;
        let taken = RuntimeLoop { queued_trigger: None, ..memory };
        match job::skip_reason(job@, sight.now@, rules.timezone@) {
            Some(reason) => TurnView {
                events: seq![skipped_event(job, trigger, reason)],
                ..again(RuntimeLoop { last_skip_reason: Some(reason), ..taken })
            },
            None => quietly(taken, Phase::RunningQueued, LoopAction::RunQueued(trigger)),
        }
    } else {
        quietly(memory, Phase::Reclaiming, LoopAction::TryReclaim)
    }
}

/// A change of the mode took effect, or was seen to have taken effect.
pub open spec fn mode_noted(
    memory: RuntimeLoop,
    job: Job,
    rules: LoopRules,
    state: JobState,
    sight: Sight,
    changed: bool,
) -> TurnView {
    let mode = memory.control.desired_mode;
    let noted = RuntimeLoop {
        last_seen_mode_command: memory.control.mode_command_seq,
        ..memory
    };
    let next = scheduled(noted, job, rules, state, sight);
    TurnView {
        applied_mode: Some(mode),
        events: if changed {
            seq![mode_event(job, state, mode, rules.pause_scope)] + next.events
        } else {
            next.events
        },
        ..next
    }
}

/// The state and the commands were read. A command to stop is followed once
/// nothing is active; then a command to change the mode is.
pub open spec fn refreshed(
    memory: RuntimeLoop,
    job: Job,
    rules: LoopRules,
    state: JobState,
    sight: Sight,
) -> TurnView {
    let seen = RuntimeLoop { control: sight.control, ..memory };
    if sight.control.stop_signal is Some && memory.active_count == 0 {
        TurnView {
            events: seq![stopped_event(job, state, stop_reason(sight.control.stop_signal->0))],
            ..quietly(seen, Phase::Stopped, LoopAction::Stop)
        }
    } else if sight.control.mode_command_seq != memory.last_seen_mode_command {
        match sight.control.command_disposition {
            CommandDisposition::Apply => quietly(
                seen,
                Phase::ChangingMode,
                LoopAction::SetMode(sight.control.desired_mode),
            ),
            CommandDisposition::ObserveOnly { changed } => mode_noted(
                seen,
                job,
                rules,
                state,
                sight,
                changed,
            ),
        }
    } else {
        scheduled(seen, job, rules, state, sight)
    }
}

/// What the loop remembers after something was tried to be started.
pub open spec fn counted(memory: RuntimeLoop, started: bool) -> RuntimeLoop {
    if started {
        RuntimeLoop { active_count: (memory.active_count + 1) as usize, ..memory }
    } else {
        memory
    }
}

/// A trigger is started, queued or dropped; either way the state that it leaves
/// is saved.
pub open spec fn dispatched(
    memory: RuntimeLoop,
    job: Job,
    candidate_state: JobState,
    trigger: PendingTrigger,
) -> TurnView {
    let after = RuntimeLoop {
        queued_trigger: overlap::queue_after(
            job.overlap_policy,
            memory.active_count as nat,
            memory.queued_trigger,
            trigger,
        ),
        ..memory
    };
    if overlap::overlap_action(job.overlap_policy, memory.active_count as nat, trigger) is Spawn {
        quietly(after, Phase::StartingDue, LoopAction::StartDue { candidate_state, trigger })
    } else {
        quietly(after, Phase::RecordingDue, LoopAction::RecordDue { candidate_state, trigger })
    }
}

/// The state that a trigger that was asked for leaves: it counts, and ends the
/// schedule where it was the last run.
pub open spec fn manual_state(job: Job, state: JobState) -> JobState {
    let count = (state.trigger_count + 1) as u32;
    JobState {
        trigger_count: count,
        next_run_at: if trigger_math::runs_exhausted(job@, count as nat) {
            None
        } else {
            state.next_run_at
        },
        ..state
    }
}

/// The trigger that was asked for.
pub open spec fn manual_trigger(request: ManualTriggerRequest, count: u32) -> PendingTrigger {
    PendingTrigger {
        scheduled_at: request.requested_at,
        catch_up: false,
        trigger_count: count,
        source: TriggerSource::Manual,
    }
}

/// Whether the loop waits for the active run before it looks at what is due: a
/// replay keeps to the order.
pub open spec fn waits_for_replay(memory: RuntimeLoop, job: Job) -> bool {
    memory.active_count > 0 && job@.missed_run_policy
        == MissedRunPolicy::ReplayAll && job@.overlap_policy
        != OverlapPolicy::AllowParallel
}

/// Whether a turn follows from what is due at a moment: the policy for missed
/// runs decides. A run that is due is looked at again by the clock before
/// anything becomes of it.
pub open spec fn is_due_turn(
    turn: Turn,
    after: RuntimeLoop,
    memory: RuntimeLoop,
    job: Job,
    rules: LoopRules,
    state: JobState,
    sight: Sight,
) -> bool {
    let outcome = crate::scheduler::trigger::trigger_outcome(job@, state@, sight.now@, rules.timezone@);
    match outcome.0 {
        Err(_) => false,
        Ok(DecisionView::Idle) => is_turn(turn, after, settled(memory, job, rules, state, sight)),
        Ok(DecisionView::StateAdvanced) => {
            &&& turn.action is Save
            &&& turn.action->Save_candidate_state@ == outcome.1
            &&& is_turn(turn, after, quietly(memory, Phase::SavingAdvance, turn.action))
        },
        Ok(DecisionView::Trigger(due)) => {
            &&& turn.action is CheckDue
            &&& turn.action->CheckDue_candidate_state@ == outcome.1
            &&& turn.action->CheckDue_trigger@ == due
            &&& is_turn(turn, after, quietly(memory, Phase::CheckingDue, turn.action))
        },
    }
}

/// What becomes of a run that is due, by a new reading of the clock: one that
/// the job may not make now is skipped once the state is saved; any other is
/// started, queued or dropped.
pub open spec fn checked(
    memory: RuntimeLoop,
    job: Job,
    rules: LoopRules,
    now: UtcTime,
    candidate_state: JobState,
    trigger: PendingTrigger,
) -> TurnView {
    match job::skip_reason(job@, now@, rules.timezone@) {
        Some(reason) => quietly(
            memory,
            Phase::SavingSkip { trigger, reason },
            LoopAction::Save { candidate_state },
        ),
        None => dispatched(memory, job, candidate_state, trigger),
    }
}

fn quiet_turn(action: LoopAction) -> (r: Turn)
    ensures
        r.applied_mode is None,
        r.events@ == Seq::<SchedulerEvent>::empty(),
        r.action == action,
{
    Turn { applied_mode: None, events: Vec::new(), action }
}

fn stopped(job: &Job, state: &JobState, reason: SchedulerStopReason) -> (r: SchedulerEvent)
    ensures
        r == stopped_event(*job, *state, reason),
{
    SchedulerEvent::SchedulerStopped {
        job_id: job.job_id.clone(),
        trigger_count: state.trigger_count,
        reason,
    }
}

fn skipped(job: &Job, trigger: &PendingTrigger, reason: RunSkipReason) -> (r: SchedulerEvent)
    ensures
        r == skipped_event(*job, *trigger, reason),
{
    SchedulerEvent::RunSkipped {
        job_id: job.job_id.clone(),
        scheduled_at: trigger.scheduled_at,
        catch_up: trigger.catch_up,
        trigger_count: trigger.trigger_count,
        reason,
    }
}

impl RuntimeLoop {
    /// The loop before its first turn.
    pub fn start() -> (r: Self)
        ensures
            r.active_count == 0,
            r.queued_trigger is None,
            r.last_skip_reason is None,
            r.last_seen_mode_command == 0,
            r.control == control::initial_signal(),
            r.phase == Phase::Refreshing,
    {
        RuntimeLoop {
            active_count: 0,
            queued_trigger: None,
            last_skip_reason: None,
            last_seen_mode_command: 0,
            control: ControlSignal::running(),
            phase: Phase::Refreshing,
        }
    }

    /// Begins a new turn.
    fn turn_again(&mut self) -> (r: Turn)
        ensures
            is_turn(r, *final(self), again(*old(self))),
    {
        self.phase = Phase::Refreshing;
        quiet_turn(LoopAction::Refresh)
    }

    /// Nothing is to be started now.
    fn settle(&mut self, job: &Job, rules: &LoopRules, state: &JobState, sight: &Sight) -> (r: Turn)
        ensures
            is_turn(r, *final(self), settled(*old(self), *job, *rules, *state, *sight)),
    {
        let next_run_at = state.next_run_at;
        if !sight.paused && next_run_at.is_none() && self.active_count == 0
            && self.queued_trigger.is_none() && !sight.manual_pending {
            if rules.terminal_state_policy == TerminalStatePolicy::Delete {
                self.phase = Phase::Deleting;
                return quiet_turn(LoopAction::DeleteTerminal);
            }
            self.phase = Phase::Stopped;
            let mut turn = quiet_turn(LoopAction::Stop);
            turn.events.push(stopped(job, state, SchedulerStopReason::Terminal));
            assert(turn.events@ =~= settled(*old(self), *job, *rules, *state, *sight).events);
            return turn;
        }
        let sleeps = sight.control.stop_signal.is_none() && sight.control.desired_mode
            == SchedulerMode::Running && !sight.paused && self.queued_trigger.is_none()
            && !sight.manual_pending && next_run_is_in_future(next_run_at, sight.now);
        let until = if sleeps {
            next_run_at
        } else {
            None
        };
        let poll_millis = if sight.paused {
            Some(PAUSED_POLL_MILLIS)
        } else {
            None
        };
        self.phase = Phase::Waiting;
        quiet_turn(LoopAction::Wait { for_run: self.active_count > 0, until, poll_millis })
    }

    /// Starts what waited, or goes on to what was left behind.
    fn schedule(
        &mut self,
        job: &Job,
        rules: &LoopRules,
        state: &JobState,
        sight: &Sight,
    ) -> (r: Turn)
        ensures
            is_turn(r, *final(self), scheduled(*old(self), *job, *rules, *state, *sight)),
    {
        if !(self.control.stop_signal.is_none() && !sight.paused) {
            return self.settle(job, rules, state, sight);
        }
        match take_queued_if_idle(self.active_count, &mut self.queued_trigger) {
            Some(trigger) => match job.skip_reason_at(sight.now, &rules.timezone) {
                Some(reason) => {
                    self.last_skip_reason = Some(reason);
                    let mut turn = self.turn_again();
                    turn.events.push(skipped(job, &trigger, reason));
                    assert(turn.events@ =~= scheduled(
                        *old(self),
                        *job,
                        *rules,
                        *state,
                        *sight,
                    ).events);
                    turn
                },
                None => {
                    self.phase = Phase::RunningQueued;
                    quiet_turn(LoopAction::RunQueued(trigger))
                },
            },
            None => {
                self.phase = Phase::Reclaiming;
                quiet_turn(LoopAction::TryReclaim)
            },
        }
    }

    /// Notes a change of the mode, and goes on.
    fn note_mode(
        &mut self,
        job: &Job,
        rules: &LoopRules,
        state: &JobState,
        sight: &Sight,
        changed: bool,
    ) -> (r: Turn)
        ensures
            is_turn(
                r,
                *final(self),
                mode_noted(*old(self), *job, *rules, *state, *sight, changed),
            ),
    {
        let mode = self.control.desired_mode;
        self.last_seen_mode_command = self.control.mode_command_seq;
        let mut turn = self.schedule(job, rules, state, sight);
        turn.applied_mode = Some(mode);
        if changed {
            let event = match mode {
                SchedulerMode::Paused => SchedulerEvent::SchedulerPaused {
                    job_id: job.job_id.clone(),
                    trigger_count: state.trigger_count,
                    scope: rules.pause_scope,
                },
                SchedulerMode::Running => SchedulerEvent::SchedulerResumed {
                    job_id: job.job_id.clone(),
                    trigger_count: state.trigger_count,
                    scope: rules.pause_scope,
                },
            };
            let ghost later = turn.events@;
            turn.events.insert(0, event);
            assert(turn.events@ =~= seq![event] + later);
        }
        turn
    }

    /// Takes in that the state and the commands were read.
    pub fn on_refreshed(
        &mut self,
        job: &Job,
        rules: &LoopRules,
        state: &JobState,
        sight: &Sight,
    ) -> (r: Turn)
        requires
            old(self).phase == Phase::Refreshing,
        ensures
            is_turn(r, *final(self), refreshed(*old(self), *job, *rules, *state, *sight)),
    {
        self.control = sight.control;
        if let Some(signal) = sight.control.stop_signal {
            if self.active_count == 0 {
                let reason = match signal {
                    StopSignal::Cancel => SchedulerStopReason::Cancelled,
                    StopSignal::Shutdown => SchedulerStopReason::Shutdown,
                };
                self.phase = Phase::Stopped;
                let mut turn = quiet_turn(LoopAction::Stop);
                turn.events.push(stopped(job, state, reason));
                assert(turn.events@ =~= refreshed(
                    *old(self),
                    *job,
                    *rules,
                    *state,
                    *sight,
                ).events);
                return turn;
            }
        }
        if sight.control.mode_command_seq != self.last_seen_mode_command {
            match sight.control.command_disposition {
                CommandDisposition::Apply => {
                    self.phase = Phase::ChangingMode;
                    quiet_turn(LoopAction::SetMode(sight.control.desired_mode))
                },
                CommandDisposition::ObserveOnly { changed } => self.note_mode(
                    job,
                    rules,
                    state,
                    sight,
                    changed,
                ),
            }
        } else {
            self.schedule(job, rules, state, sight)
        }
    }

    /// Takes in that the mode was set, and whether that changed anything.
    pub fn on_mode_set(
        &mut self,
        job: &Job,
        rules: &LoopRules,
        state: &JobState,
        sight: &Sight,
        changed: bool,
    ) -> (r: Turn)
        requires
            old(self).phase == Phase::ChangingMode,
        ensures
            is_turn(
                r,
                *final(self),
                mode_noted(*old(self), *job, *rules, *state, *sight, changed),
            ),
    {
        self.note_mode(job, rules, state, sight, changed)
    }

    /// Takes in whether the trigger that waited was started.
    pub fn on_queued_run(&mut self, started: bool) -> (r: Turn)
        requires
            old(self).phase == Phase::RunningQueued,
            old(self).active_count < usize::MAX,
        ensures
            is_turn(r, *final(self), again(counted(*old(self), started))),
    {
        if started {
            self.active_count = self.active_count + 1;
        }
        self.turn_again()
    }

    /// Takes in whether a claim that was left behind was taken over.
    pub fn on_reclaimed(&mut self, started: bool) -> (r: Turn)
        requires
            old(self).phase == Phase::Reclaiming,
            old(self).active_count < usize::MAX,
        ensures
            is_turn(
                r,
                *final(self),
                if started {
                    again(counted(*old(self), true))
                } else {
                    quietly(*old(self), Phase::TakingManual, LoopAction::TakeManual)
                },
            ),
    {
        if started {
            self.active_count = self.active_count + 1;
            self.turn_again()
        } else {
            self.phase = Phase::TakingManual;
            quiet_turn(LoopAction::TakeManual)
        }
    }

    /// Starts, queues or drops a trigger.
    fn dispatch(
        &mut self,
        job: &Job,
        candidate_state: JobState,
        trigger: PendingTrigger,
    ) -> (r: Turn)
        ensures
            is_turn(r, *final(self), dispatched(*old(self), *job, candidate_state, trigger)),
    {
        let mut queued = self.queued_trigger;
        let action = dispatch_trigger(job.overlap_policy, self.active_count, &mut queued, trigger);
        self.queued_trigger = queued;
        match action {
            OverlapAction::Spawn(_) => {
                self.phase = Phase::StartingDue;
                quiet_turn(LoopAction::StartDue { candidate_state, trigger })
            },
            _ => {
                self.phase = Phase::RecordingDue;
                quiet_turn(LoopAction::RecordDue { candidate_state, trigger })
            },
        }
    }

    /// Takes in the trigger that was asked for, if any, and otherwise looks at
    /// what is due. `None` means that the trigger count cannot hold what is to
    /// be consumed; everything is then as it was.
    pub fn on_manual(
        &mut self,
        job: &Job,
        rules: &LoopRules,
        state: &JobState,
        sight: &Sight,
        request: Option<ManualTriggerRequest>,
    ) -> (r: Option<Result<Turn, SchedulerError>>)
        requires
            old(self).phase == Phase::TakingManual,
        ensures
            match request {
                Some(wanted) => if state.trigger_count == u32::MAX {
                    r is None && *final(self) == *old(self)
                } else {
                    &&& r is Some && r->0 is Ok
                    &&& is_turn(
                        r->0->Ok_0,
                        *final(self),
                        dispatched(
                            *old(self),
                            *job,
                            manual_state(*job, *state),
                            manual_trigger(wanted, (state.trigger_count + 1) as u32),
                        ),
                    )
                },
                None => if waits_for_replay(*old(self), *job) {
                    &&& r is Some && r->0 is Ok
                    &&& is_turn(
                        r->0->Ok_0,
                        *final(self),
                        settled(*old(self), *job, *rules, *state, *sight),
                    )
                } else {
                    match r {
                        None => *final(self) == *old(self) && !crate::scheduler::trigger::outcome_fits(
                            job@,
                            state@,
                            sight.now@,
                            rules.timezone@,
                        ),
                        Some(Err(error)) => *final(self) == *old(self) && crate::scheduler::trigger::trigger_outcome(
                            job@,
                            state@,
                            sight.now@,
                            rules.timezone@,
                        ).0 == Err::<DecisionView, ErrorView>(error@),
                        Some(Ok(turn)) => is_due_turn(
                            turn,
                            *final(self),
                            *old(self),
                            *job,
                            *rules,
                            *state,
                            *sight,
                        ),
                    }
                },
            },
    {
        let mut candidate_state = state.clone();
        if let Some(wanted) = request {
            if state.trigger_count == u32::MAX {
                return None;
            }
            let trigger_count: u32 = advance_state_for_manual_trigger(job, &mut candidate_state);
            let trigger = PendingTrigger {
                scheduled_at: wanted.requested_at,
                catch_up: false,
                trigger_count,
                source: TriggerSource::Manual,
            };
            assert(candidate_state == manual_state(*job, *state));
            return Some(Ok(self.dispatch(job, candidate_state, trigger)));
        }
        if should_wait_for_active_replay(job, self.active_count) {
            return Some(Ok(self.settle(job, rules, state, sight)));
        }
        match try_next_trigger(job, &mut candidate_state, sight.now, &rules.timezone) {
            None => None,
            Some(Err(error)) => Some(Err(error)),
            Some(Ok(TriggerDecision::Idle)) => Some(Ok(self.settle(job, rules, state, sight))),
            Some(Ok(TriggerDecision::StateAdvanced)) => {
                self.phase = Phase::SavingAdvance;
                Some(Ok(quiet_turn(LoopAction::Save { candidate_state })))
            },
            Some(Ok(TriggerDecision::Trigger(trigger))) => {
                self.phase = Phase::CheckingDue;
                Some(Ok(quiet_turn(LoopAction::CheckDue { candidate_state, trigger })))
            },
        }
    }

    /// Takes in a new reading of the clock for a run that is due, which is the
    /// one that was to be checked.
    pub fn on_checked(
        &mut self,
        job: &Job,
        rules: &LoopRules,
        now: UtcTime,
        candidate_state: JobState,
        trigger: PendingTrigger,
    ) -> (r: Turn)
        requires
            old(self).phase == Phase::CheckingDue,
        ensures
            is_turn(
                r,
                *final(self),
                checked(*old(self), *job, *rules, now, candidate_state, trigger),
            ),
    {
        match job.skip_reason_at(now, &rules.timezone) {
            Some(reason) => {
                self.phase = Phase::SavingSkip { trigger, reason };
                quiet_turn(LoopAction::Save { candidate_state })
            },
            None => self.dispatch(job, candidate_state, trigger),
        }
    }

    /// Takes in whether a run that was due was started. Of a trigger that was
    /// not to be started now, nothing is counted.
    pub fn on_due_handled(&mut self, started: bool) -> (r: Turn)
        requires
            old(self).phase == Phase::StartingDue || old(self).phase == Phase::RecordingDue,
            old(self).active_count < usize::MAX,
        ensures
            is_turn(
                r,
                *final(self),
                again(counted(*old(self), started && old(self).phase == Phase::StartingDue)),
            ),
    {
        let counts = match self.phase {
            Phase::StartingDue => started,
            _ => false,
        };
        if counts {
            self.active_count = self.active_count + 1;
        }
        self.turn_again()
    }

    /// Takes in whether a state was saved. A skip counts only once it was.
    pub fn on_saved(
        &mut self,
        job: &Job,
        rules: &LoopRules,
        state: &JobState,
        sight: &Sight,
        saved: bool,
    ) -> (r: Turn)
        requires
            old(self).phase == Phase::SavingAdvance || old(self).phase is SavingSkip,
        ensures
            match old(self).phase {
                Phase::SavingSkip { trigger, reason } => is_turn(
                    r,
                    *final(self),
                    if saved {
                        TurnView {
                            events: seq![skipped_event(*job, trigger, reason)],
                            ..again(RuntimeLoop { last_skip_reason: Some(reason), ..*old(self) })
                        }
                    } else {
                        again(*old(self))
                    },
                ),
                _ => is_turn(
                    r,
                    *final(self),
                    if saved {
                        again(*old(self))
                    } else {
                        settled(*old(self), *job, *rules, *state, *sight)
                    },
                ),
            },
    {
        match self.phase {
            Phase::SavingSkip { trigger, reason } => {
                if saved {
                    self.last_skip_reason = Some(reason);
                    let mut turn = self.turn_again();
                    turn.events.push(skipped(job, &trigger, reason));
                    assert(turn.events@ =~= seq![skipped_event(*job, trigger, reason)]);
                    turn
                } else {
                    self.turn_again()
                }
            },
            _ => {
                if saved {
                    self.turn_again()
                } else {
                    self.settle(job, rules, state, sight)
                }
            },
        }
    }

    /// Takes in that the state of a finished job was deleted.
    pub fn on_deleted(&mut self, job: &Job, state: &JobState) -> (r: Turn)
        requires
            old(self).phase == Phase::Deleting,
        ensures
            is_turn(
                r,
                *final(self),
                (TurnView {
                    events: seq![
                        deleted_event(*job, *state),
                        stopped_event(*job, *state, SchedulerStopReason::Terminal),
                    ],
                    ..quietly(*old(self), Phase::Stopped, LoopAction::Stop)
                }),
            ),
    {
        self.phase = Phase::Stopped;
        let mut turn = quiet_turn(LoopAction::Stop);
        turn.events.push(
            SchedulerEvent::TerminalStateDeleted {
                job_id: job.job_id.clone(),
                trigger_count: state.trigger_count,
            },
        );
        turn.events.push(stopped(job, state, SchedulerStopReason::Terminal));
        assert(turn.events@ =~= seq![
            deleted_event(*job, *state),
            stopped_event(*job, *state, SchedulerStopReason::Terminal),
        ]);
        turn
    }

    /// Takes in that a run ended while the loop waited.
    pub fn on_run_ended(&mut self) -> (r: Turn)
        requires
            old(self).phase == Phase::Waiting,
            old(self).active_count > 0,
        ensures
            is_turn(
                r,
                *final(self),
                again(
                    (RuntimeLoop {
                        active_count: (old(self).active_count - 1) as usize,
                        ..*old(self)
                    }),
                ),
            ),
    {
        self.active_count = self.active_count - 1;
        self.turn_again()
    }

    /// Takes in that a command came, or that the time to wait was over.
    pub fn on_woken(&mut self) -> (r: Turn)
        requires
            old(self).phase == Phase::Waiting,
        ensures
            is_turn(r, *final(self), again(*old(self))),
    {
        self.turn_again()
    }

    /// Takes in that no command can come any more.
    pub fn on_channel_closed(&mut self, job: &Job, state: &JobState) -> (r: Turn)
        requires
            old(self).phase == Phase::Waiting,
        ensures
            is_turn(
                r,
                *final(self),
                (TurnView {
                    events: seq![
                        stopped_event(*job, *state, SchedulerStopReason::ChannelClosed),
                    ],
                    ..quietly(*old(self), Phase::Stopped, LoopAction::Stop)
                }),
            ),
    {
        self.phase = Phase::Stopped;
        let mut turn = quiet_turn(LoopAction::Stop);
        turn.events.push(stopped(job, state, SchedulerStopReason::ChannelClosed));
        assert(turn.events@ =~= seq![
            stopped_event(*job, *state, SchedulerStopReason::ChannelClosed),
        ]);
        turn
    }
}

/// Whether an action starts a run, or leads to one.
pub open spec fn leads_to_run(action: LoopAction) -> bool {
    match action {
        LoopAction::RunQueued(_) => true,
        LoopAction::TryReclaim => true,
        LoopAction::TakeManual => true,
        LoopAction::CheckDue { .. } => true,
        LoopAction::StartDue { .. } => true,
        LoopAction::RecordDue { .. } => true,
        LoopAction::Save { .. } => true,
        _ => false,
    }
}

/// Nothing is started while a job is paused, or once a command to stop was
/// given; runs that are active go on.
pub proof fn law_paused_starts_nothing(
    memory: RuntimeLoop,
    job: Job,
    rules: LoopRules,
    state: JobState,
    sight: Sight,
    changed: bool,
)
    requires
        sight.paused || sight.control.stop_signal is Some,
    ensures
        !leads_to_run(refreshed(memory, job, rules, state, sight).action),
        refreshed(memory, job, rules, state, sight).memory.active_count == memory.active_count,
        memory.control == sight.control ==> !leads_to_run(
            mode_noted(memory, job, rules, state, sight, changed).action,
        ),
{
}

/// A job that is paused and not told to stop waits, and looks again after a
/// little while: it neither finishes nor sleeps until its next run.
pub proof fn law_paused_waits(
    memory: RuntimeLoop,
    job: Job,
    rules: LoopRules,
    state: JobState,
    sight: Sight,
)
    requires
        sight.paused,
    ensures
        settled(memory, job, rules, state, sight).action == (LoopAction::Wait {
            for_run: memory.active_count > 0,
            until: None,
            poll_millis: Some(PAUSED_POLL_MILLIS),
        }),
{
}

/// A scheduler never stops while a run is active: a command to stop is followed
/// afterwards, and a job with an active run is not finished.
pub proof fn law_stops_only_when_idle(
    memory: RuntimeLoop,
    job: Job,
    rules: LoopRules,
    state: JobState,
    sight: Sight,
)
    requires
        memory.active_count > 0,
    ensures
        !(refreshed(memory, job, rules, state, sight).action is Stop),
        !(settled(memory, job, rules, state, sight).action is Stop),
        !(settled(memory, job, rules, state, sight).action is DeleteTerminal),
{
}

/// A job ends by itself only when nothing is due, active, queued or asked for.
pub proof fn law_ends_only_when_finished(
    memory: RuntimeLoop,
    job: Job,
    rules: LoopRules,
    state: JobState,
    sight: Sight,
)
    ensures
        settled(memory, job, rules, state, sight).action is Stop || settled(
            memory,
            job,
            rules,
            state,
            sight,
        ).action is DeleteTerminal <==> finished(memory, state, sight),
        settled(memory, job, rules, state, sight).action is DeleteTerminal
            ==> rules.terminal_state_policy == TerminalStatePolicy::Delete,
{
}

/// Unless overlapping is allowed, a trigger is started only while nothing is
/// active, and so is one that waited.
pub proof fn law_no_overlap(
    memory: RuntimeLoop,
    job: Job,
    rules: LoopRules,
    state: JobState,
    sight: Sight,
    candidate_state: JobState,
    trigger: PendingTrigger,
)
    ensures
        dispatched(memory, job, candidate_state, trigger).action is StartDue
            && job.overlap_policy != OverlapPolicy::AllowParallel ==> memory.active_count == 0,
        scheduled(memory, job, rules, state, sight).action is RunQueued ==> memory.active_count
            == 0,
{
}

/// A run that is due while the time window of its job is closed is never
/// started: the state moves past it, and the skip is told once that is saved.
pub proof fn law_closed_window_skips(
    memory: RuntimeLoop,
    job: Job,
    rules: LoopRules,
    now: UtcTime,
    candidate_state: JobState,
    trigger: PendingTrigger,
)
    requires
        job::skip_reason(job@, now@, rules.timezone@) is Some,
    ensures
        checked(memory, job, rules, now, candidate_state, trigger).action == (LoopAction::Save {
            candidate_state,
        }),
        checked(memory, job, rules, now, candidate_state, trigger).memory.queued_trigger
            == memory.queued_trigger,
        checked(memory, job, rules, now, candidate_state, trigger).memory.phase
            == (Phase::SavingSkip {
            trigger,
            reason: job::skip_reason(job@, now@, rules.timezone@)->0,
        }),
{
}

/// No trigger of the schedule is started, queued or dropped before the clock was
/// read again for it.
pub proof fn law_due_is_checked(
    turn: Turn,
    after: RuntimeLoop,
    memory: RuntimeLoop,
    job: Job,
    rules: LoopRules,
    state: JobState,
    sight: Sight,
)
    requires
        is_due_turn(turn, after, memory, job, rules, state, sight),
    ensures
        !(turn.action is StartDue),
        !(turn.action is RecordDue),
        after.queued_trigger == memory.queued_trigger,
{
}

/// A loop that sleeps does so until the next run, which is in the future.
pub proof fn law_sleeps_until_next_run(
    memory: RuntimeLoop,
    job: Job,
    rules: LoopRules,
    state: JobState,
    sight: Sight,
)
    ensures
        settled(memory, job, rules, state, sight).action matches LoopAction::Wait {
            for_run,
            until: Some(next),
            poll_millis,
        } ==> state.next_run_at == Some(next) && next@ > sight.now@ && poll_millis is None,
{
}

/// A trigger that was asked for counts like any other, and does not move the
/// schedule unless it was the last run.
pub proof fn law_manual_trigger_keeps_schedule(job: Job, state: JobState)
    requires
        state.trigger_count < u32::MAX,
    ensures
        manual_state(job, state).trigger_count == state.trigger_count + 1,
        !trigger_math::runs_exhausted(job@, state.trigger_count as nat + 1) ==> manual_state(
            job,
            state,
        ).next_run_at == state.next_run_at,
        manual_state(job, state).last_run_at == state.last_run_at,
{
}

/// Where nothing keeps the next run from being started, the loop wakes for it,
/// however many runs are active: overlap is decided then, not before.
pub proof fn law_wakes_for_next_run(
    memory: RuntimeLoop,
    job: Job,
    rules: LoopRules,
    state: JobState,
    sight: Sight,
    next: UtcTime,
)
    requires
        !sight.paused,
        sight.control.stop_signal is None,
        sight.control.desired_mode == SchedulerMode::Running,
        memory.queued_trigger is None,
        !sight.manual_pending,
        state.next_run_at == Some(next),
        next@ > sight.now@,
    ensures
        settled(memory, job, rules, state, sight).action == (LoopAction::Wait {
            for_run: memory.active_count > 0,
            until: Some(next),
            poll_millis: None,
        }),
        settled(memory, job, rules, state, sight).memory == (RuntimeLoop {
            phase: Phase::Waiting,
            ..memory
        }),
        settled(memory, job, rules, state, sight).events.len() == 0,
{
}

/// A loop that has nothing to do and is not finished waits: for a run exactly
/// where one is active, for fifty milliseconds exactly where the job is paused,
/// and for the next run exactly where that is to come and nothing stands against
/// it.
pub proof fn law_waiting(
    memory: RuntimeLoop,
    job: Job,
    rules: LoopRules,
    state: JobState,
    sight: Sight,
)
    requires
        sight.paused || state.next_run_at is Some || memory.active_count > 0
            || memory.queued_trigger is Some || sight.manual_pending,
    ensures
        settled(memory, job, rules, state, sight).action matches LoopAction::Wait {
            for_run,
            until,
            poll_millis,
        } && {
            &&& for_run <==> memory.active_count > 0
            &&& poll_millis == if sight.paused {
                Some(50u64)
            } else {
                None
            }
            &&& until is Some ==> until == state.next_run_at
            &&& until is Some <==> {
                &&& state.next_run_at is Some
                &&& state.next_run_at->0@ > sight.now@
                &&& !sight.paused
                &&& sight.control.stop_signal is None
                &&& sight.control.desired_mode == SchedulerMode::Running
                &&& memory.queued_trigger is None
                &&& !sight.manual_pending
            }
        },
        settled(memory, job, rules, state, sight).events.len() == 0,
        settled(memory, job, rules, state, sight).applied_mode is None,
        settled(memory, job, rules, state, sight).memory == (RuntimeLoop {
            phase: Phase::Waiting,
            ..memory
        }),
{
}

/// A job with nothing due, active, queued or asked for ends, unless it is paused:
/// its state is deleted first where the policy says so, and the end is told.
pub proof fn law_finishing(
    memory: RuntimeLoop,
    job: Job,
    rules: LoopRules,
    state: JobState,
    sight: Sight,
)
    requires
        !sight.paused,
        state.next_run_at is None,
        memory.active_count == 0,
        memory.queued_trigger is None,
        !sight.manual_pending,
    ensures
        rules.terminal_state_policy == TerminalStatePolicy::Delete ==> settled(
            memory,
            job,
            rules,
            state,
            sight,
        ) == (TurnView {
            memory: RuntimeLoop { phase: Phase::Deleting, ..memory },
            applied_mode: None,
            events: Seq::empty(),
            action: LoopAction::DeleteTerminal,
        }),
        rules.terminal_state_policy == TerminalStatePolicy::Retain ==> settled(
            memory,
            job,
            rules,
            state,
            sight,
        ) == (TurnView {
            memory: RuntimeLoop { phase: Phase::Stopped, ..memory },
            applied_mode: None,
            events: seq![
                SchedulerEvent::SchedulerStopped {
                    job_id: job.job_id,
                    trigger_count: state.trigger_count,
                    reason: SchedulerStopReason::Terminal,
                },
            ],
            action: LoopAction::Stop,
        }),
{
}

/// A command to stop ends the loop at once where nothing is active, before any
/// other command is looked at, and is told with its own reason.
pub proof fn law_stop_is_followed(
    memory: RuntimeLoop,
    job: Job,
    rules: LoopRules,
    state: JobState,
    sight: Sight,
    signal: StopSignal,
)
    requires
        sight.control.stop_signal == Some(signal),
        memory.active_count == 0,
    ensures
        refreshed(memory, job, rules, state, sight) == (TurnView {
            memory: RuntimeLoop { phase: Phase::Stopped, control: sight.control, ..memory },
            applied_mode: None,
            events: seq![
                SchedulerEvent::SchedulerStopped {
                    job_id: job.job_id,
                    trigger_count: state.trigger_count,
                    reason: if signal == StopSignal::Cancel {
                        SchedulerStopReason::Cancelled
                    } else {
                        SchedulerStopReason::Shutdown
                    },
                },
            ],
            action: LoopAction::Stop,
        }),
{
}

/// A command to change the mode that was not followed yet is: the backend is
/// asked to set exactly that mode, or the change was made elsewhere and is noted
/// at once.
pub proof fn law_mode_command_is_followed(
    memory: RuntimeLoop,
    job: Job,
    rules: LoopRules,
    state: JobState,
    sight: Sight,
)
    requires
        sight.control.stop_signal is None || memory.active_count > 0,
        sight.control.mode_command_seq != memory.last_seen_mode_command,
    ensures
        sight.control.command_disposition == CommandDisposition::Apply ==> refreshed(
            memory,
            job,
            rules,
            state,
            sight,
        ) == (TurnView {
            memory: RuntimeLoop { phase: Phase::ChangingMode, control: sight.control, ..memory },
            applied_mode: None,
            events: Seq::empty(),
            action: LoopAction::SetMode(sight.control.desired_mode),
        }),
        sight.control.command_disposition matches CommandDisposition::ObserveOnly { changed }
            ==> refreshed(memory, job, rules, state, sight) == mode_noted(
            RuntimeLoop { control: sight.control, ..memory },
            job,
            rules,
            state,
            sight,
            changed,
        ),
{
}

/// Without a new command the turn goes on, by the commands as they were read.
pub proof fn law_no_command_goes_on(
    memory: RuntimeLoop,
    job: Job,
    rules: LoopRules,
    state: JobState,
    sight: Sight,
)
    requires
        sight.control.stop_signal is None || memory.active_count > 0,
        sight.control.mode_command_seq == memory.last_seen_mode_command,
    ensures
        refreshed(memory, job, rules, state, sight) == scheduled(
            RuntimeLoop { control: sight.control, ..memory },
            job,
            rules,
            state,
            sight,
        ),
{
}

/// A change of the mode is noted with the number of its command, so that it is
/// followed once, and is told exactly where it changed something, before anything
/// else of the turn; then the turn goes on.
pub proof fn law_mode_change_is_noted(
    memory: RuntimeLoop,
    job: Job,
    rules: LoopRules,
    state: JobState,
    sight: Sight,
    changed: bool,
)
    ensures
        ({
            let turn = mode_noted(memory, job, rules, state, sight, changed);
            let rest = scheduled(
                RuntimeLoop {
                    last_seen_mode_command: memory.control.mode_command_seq,
                    ..memory
                },
                job,
                rules,
                state,
                sight,
            );
            &&& turn.applied_mode == Some(memory.control.desired_mode)
            &&& turn.memory == rest.memory
            &&& turn.memory.last_seen_mode_command == memory.control.mode_command_seq
            &&& turn.action == rest.action
            &&& !changed ==> turn.events == rest.events
            &&& changed && memory.control.desired_mode == SchedulerMode::Paused ==> turn.events
                == seq![
                SchedulerEvent::SchedulerPaused {
                    job_id: job.job_id,
                    trigger_count: state.trigger_count,
                    scope: rules.pause_scope,
                },
            ] + rest.events
            &&& changed && memory.control.desired_mode == SchedulerMode::Running ==> turn.events
                == seq![
                SchedulerEvent::SchedulerResumed {
                    job_id: job.job_id,
                    trigger_count: state.trigger_count,
                    scope: rules.pause_scope,
                },
            ] + rest.events
        }),
{
}

/// While a job may start something, a trigger that waited comes first once nothing
/// is active: it is run, or skipped and told where the window is closed, and
/// either way it waits no longer. Otherwise what was left behind is looked for.
pub proof fn law_waiting_trigger_first(
    memory: RuntimeLoop,
    job: Job,
    rules: LoopRules,
    state: JobState,
    sight: Sight,
)
    requires
        memory.control.stop_signal is None,
        !sight.paused,
    ensures
        memory.active_count > 0 || memory.queued_trigger is None ==> scheduled(
            memory,
            job,
            rules,
            state,
            sight,
        ) == (TurnView {
            memory: RuntimeLoop { phase: Phase::Reclaiming, ..memory },
            applied_mode: None,
            events: Seq::empty(),
            action: LoopAction::TryReclaim,
        }),
        memory.active_count == 0 && memory.queued_trigger is Some && (job@.time_window is None
            || crate::model::time_window::open_at(
            job@.time_window->0,
            sight.now@,
            rules.timezone@,
        )) ==> scheduled(memory, job, rules, state, sight) == (TurnView {
            memory: RuntimeLoop { phase: Phase::RunningQueued, queued_trigger: None, ..memory },
            applied_mode: None,
            events: Seq::empty(),
            action: LoopAction::RunQueued(memory.queued_trigger->0),
        }),
        memory.active_count == 0 && memory.queued_trigger is Some && job@.time_window is Some
            && !crate::model::time_window::open_at(
            job@.time_window->0,
            sight.now@,
            rules.timezone@,
        ) ==> scheduled(memory, job, rules, state, sight) == (TurnView {
            memory: RuntimeLoop {
                phase: Phase::Refreshing,
                queued_trigger: None,
                last_skip_reason: Some(RunSkipReason::OutsideTimeWindow),
                ..memory
            },
            applied_mode: None,
            events: seq![
                SchedulerEvent::RunSkipped {
                    job_id: job.job_id,
                    scheduled_at: memory.queued_trigger->0.scheduled_at,
                    catch_up: memory.queued_trigger->0.catch_up,
                    trigger_count: memory.queued_trigger->0.trigger_count,
                    reason: RunSkipReason::OutsideTimeWindow,
                },
            ],
            action: LoopAction::Refresh,
        }),
{
}

/// While a job is paused or told to stop, a turn starts nothing and settles.
pub proof fn law_held_back_settles(
    memory: RuntimeLoop,
    job: Job,
    rules: LoopRules,
    state: JobState,
    sight: Sight,
)
    requires
        memory.control.stop_signal is Some || sight.paused,
    ensures
        scheduled(memory, job, rules, state, sight) == settled(memory, job, rules, state, sight),
{
}

/// Whether a run is started depends on the runs that are active: with none it is,
/// under every policy. With one, it is only where overlap is allowed; where one
/// trigger may wait it waits, unless another one does; where overlap is forbidden
/// it is dropped. The state that it leaves is kept in every case.
pub proof fn law_dispatch(
    memory: RuntimeLoop,
    job: Job,
    candidate_state: JobState,
    trigger: PendingTrigger,
)
    ensures
        ({
            let turn = dispatched(memory, job, candidate_state, trigger);
            let starts = memory.active_count == 0 || job.overlap_policy
                == OverlapPolicy::AllowParallel;
            let waits = !starts && job.overlap_policy == OverlapPolicy::QueueOne
                && memory.queued_trigger is None;
            &&& turn.action == if starts {
                LoopAction::StartDue { candidate_state, trigger }
            } else {
                LoopAction::RecordDue { candidate_state, trigger }
            }
            &&& turn.memory == (RuntimeLoop {
                phase: if starts {
                    Phase::StartingDue
                } else {
                    Phase::RecordingDue
                },
                queued_trigger: if waits {
                    Some(trigger)
                } else {
                    memory.queued_trigger
                },
                ..memory
            })
            &&& turn.events.len() == 0
            &&& turn.applied_mode is None
        }),
{
}

/// A due run whose window is open at the second reading of the clock, or that has
/// no window, is dispatched.
pub proof fn law_open_window_dispatches(
    memory: RuntimeLoop,
    job: Job,
    rules: LoopRules,
    now: UtcTime,
    candidate_state: JobState,
    trigger: PendingTrigger,
)
    requires
        job@.time_window is None || crate::model::time_window::open_at(
            job@.time_window->0,
            now@,
            rules.timezone@,
        ),
    ensures
        checked(memory, job, rules, now, candidate_state, trigger) == dispatched(
            memory,
            job,
            candidate_state,
            trigger,
        ),
{
}

/// A due run whose window is closed at the second reading of the clock is skipped,
/// whatever its schedule.
pub proof fn law_window_skips_due_run(
    memory: RuntimeLoop,
    job: Job,
    rules: LoopRules,
    now: UtcTime,
    candidate_state: JobState,
    trigger: PendingTrigger,
)
    requires
        job@.time_window is Some,
        !crate::model::time_window::open_at(job@.time_window->0, now@, rules.timezone@),
    ensures
        checked(memory, job, rules, now, candidate_state, trigger) == (TurnView {
            memory: RuntimeLoop {
                phase: Phase::SavingSkip { trigger, reason: RunSkipReason::OutsideTimeWindow },
                ..memory
            },
            applied_mode: None,
            events: Seq::empty(),
            action: LoopAction::Save { candidate_state },
        }),
{
}

/// Looking at what is due, the loop does as the missed-run policy decides: it
/// settles while nothing is due, saves where due times were dropped, and has a
/// run that is to be made checked, with the state that it leaves.
pub proof fn law_due_turn(
    turn: Turn,
    after: RuntimeLoop,
    memory: RuntimeLoop,
    job: Job,
    rules: LoopRules,
    state: JobState,
    sight: Sight,
)
    requires
        is_due_turn(turn, after, memory, job, rules, state, sight),
    ensures
        state.next_run_at is None || state.next_run_at->0@ > sight.now@ ==> is_turn(
            turn,
            after,
            settled(memory, job, rules, state, sight),
        ),
        after == (RuntimeLoop { phase: after.phase, ..memory }),
        turn.action is CheckDue ==> state.next_run_at is Some && state.next_run_at->0@
            <= sight.now@ && after.phase == Phase::CheckingDue && ({
            let outcome = crate::scheduler::trigger::trigger_outcome(
                job@,
                state@,
                sight.now@,
                rules.timezone@,
            );
            &&& outcome.0 == Ok::<DecisionView, ErrorView>(
                DecisionView::Trigger(turn.action->CheckDue_trigger@),
            )
            &&& outcome.1 == turn.action->CheckDue_candidate_state@
        }),
        turn.action is Save ==> after.phase == Phase::SavingAdvance && ({
            let outcome = crate::scheduler::trigger::trigger_outcome(
                job@,
                state@,
                sight.now@,
                rules.timezone@,
            );
            &&& outcome.0 == Ok::<DecisionView, ErrorView>(DecisionView::StateAdvanced)
            &&& outcome.1 == turn.action->Save_candidate_state@
        }),
        turn.action is CheckDue || turn.action is Save || turn.action is Wait || turn.action is Stop
            || turn.action is DeleteTerminal,
{
    if state.next_run_at is None || state.next_run_at->0@ > sight.now@ {
        crate::scheduler::trigger::law_idle_until_due(job@, state@, sight.now@, rules.timezone@);
    }
}

/// A trigger that is asked for is scheduled for when it was asked, is no catch-up,
/// and counts as the next one. It ends the schedule only where it uses up the
/// limit of runs; all else of the state stays.
pub proof fn law_manual_trigger(job: Job, state: JobState, request: ManualTriggerRequest)
    requires
        state.trigger_count < u32::MAX,
    ensures
        manual_state(job, state) == (JobState {
            trigger_count: (state.trigger_count + 1) as u32,
            next_run_at: if job.max_runs is Some && state.trigger_count + 1 >= job.max_runs->0 {
                None
            } else {
                state.next_run_at
            },
            ..state
        }),
        manual_trigger(request, (state.trigger_count + 1) as u32) == (PendingTrigger {
            scheduled_at: request.requested_at,
            catch_up: false,
            trigger_count: (state.trigger_count + 1) as u32,
            source: TriggerSource::Manual,
        }),
{
}

/// Only a replay that must not overlap waits for the run that is active before it
/// looks at what is due.
pub proof fn law_replay_waits(memory: RuntimeLoop, job: Job)
    ensures
        waits_for_replay(memory, job) <==> memory.active_count > 0 && job.missed_run_policy
            == MissedRunPolicy::ReplayAll && (job.overlap_policy == OverlapPolicy::Forbid
            || job.overlap_policy == OverlapPolicy::QueueOne),
{
}

/// What was started counts as active until it ends.
pub proof fn law_runs_are_counted(memory: RuntimeLoop)
    requires
        memory.active_count < usize::MAX,
    ensures
        counted(memory, true) == (RuntimeLoop {
            active_count: (memory.active_count + 1) as usize,
            ..memory
        }),
        counted(memory, false) == memory,
        again(memory) == (TurnView {
            memory: RuntimeLoop { phase: Phase::Refreshing, ..memory },
            applied_mode: None,
            events: Seq::empty(),
            action: LoopAction::Refresh,
        }),
{
}

/// Looking at what is due with nothing due yet and nothing that keeps the next run
/// from being started, the loop waits for it, and for a run where one is active,
/// under every policy. A replay that must not overlap is no exception.
pub proof fn law_call_waits_for_next_run(
    memory: &mut RuntimeLoop,
    job: &Job,
    rules: &LoopRules,
    state: &JobState,
    sight: &Sight,
    r: Option<Result<Turn, SchedulerError>>,
    next: UtcTime,
)
    requires
        call_ensures(
            RuntimeLoop::on_manual,
            (memory, job, rules, state, sight, None::<ManualTriggerRequest>),
            r,
        ),
        !sight.paused,
        sight.control.stop_signal is None,
        sight.control.desired_mode == SchedulerMode::Running,
        old(memory).queued_trigger is None,
        !sight.manual_pending,
        state.next_run_at == Some(next),
        next@ > sight.now@,
    ensures
        r matches Some(Ok(turn)) && turn.action == (LoopAction::Wait {
            for_run: old(memory).active_count > 0,
            until: Some(next),
            poll_millis: None,
        }) && turn.events@.len() == 0 && turn.applied_mode is None,
        *final(memory) == (RuntimeLoop { phase: Phase::Waiting, ..*old(memory) }),
{
    crate::scheduler::trigger::law_idle_until_due(job@, state@, sight.now@, rules.timezone@);
}

/// A trigger that was asked for is dispatched by the overlap policy, with the state
/// that counts it, whatever is due.
pub proof fn law_call_manual_trigger(
    memory: &mut RuntimeLoop,
    job: &Job,
    rules: &LoopRules,
    state: &JobState,
    sight: &Sight,
    request: ManualTriggerRequest,
    r: Option<Result<Turn, SchedulerError>>,
    counted_state: JobState,
    trigger: PendingTrigger,
)
    requires
        call_ensures(
            RuntimeLoop::on_manual,
            (memory, job, rules, state, sight, Some(request)),
            r,
        ),
        state.trigger_count < u32::MAX,
        counted_state == (JobState {
            trigger_count: (state.trigger_count + 1) as u32,
            next_run_at: if job.max_runs is Some && state.trigger_count + 1 >= job.max_runs->0 {
                None
            } else {
                state.next_run_at
            },
            ..*state
        }),
        trigger == (PendingTrigger {
            scheduled_at: request.requested_at,
            catch_up: false,
            trigger_count: (state.trigger_count + 1) as u32,
            source: TriggerSource::Manual,
        }),
    ensures
        r matches Some(Ok(turn)) && ({
            let starts = old(memory).active_count == 0 || job.overlap_policy
                == OverlapPolicy::AllowParallel;
            &&& turn.events@.len() == 0
            &&& starts ==> turn.action == (LoopAction::StartDue {
                candidate_state: counted_state,
                trigger,
            }) && *final(memory) == (RuntimeLoop { phase: Phase::StartingDue, ..*old(memory) })
            &&& !starts ==> turn.action == (LoopAction::RecordDue {
                candidate_state: counted_state,
                trigger,
            })
            &&& !starts && job.overlap_policy == OverlapPolicy::QueueOne && old(memory).queued_trigger is None ==> *final(memory) == (RuntimeLoop {
                phase: Phase::RecordingDue,
                queued_trigger: Some(trigger),
                ..*old(memory)
            })
            &&& !starts && (job.overlap_policy == OverlapPolicy::Forbid || old(memory).queued_trigger is Some) ==> *final(memory) == (RuntimeLoop {
                phase: Phase::RecordingDue,
                ..*old(memory)
            })
        }),
{
    law_manual_trigger(*job, *state, request);
    law_dispatch(*old(memory), *job, counted_state, trigger);
}

/// Looking at what is due, the loop does as the missed-run policy decides, unless
/// it waits for a run so that a replay keeps to the order.
pub proof fn law_call_due_turn(
    memory: &mut RuntimeLoop,
    job: &Job,
    rules: &LoopRules,
    state: &JobState,
    sight: &Sight,
    r: Option<Result<Turn, SchedulerError>>,
)
    requires
        call_ensures(
            RuntimeLoop::on_manual,
            (memory, job, rules, state, sight, None::<ManualTriggerRequest>),
            r,
        ),
        old(memory).active_count == 0 || job.missed_run_policy != MissedRunPolicy::ReplayAll
            || job.overlap_policy == OverlapPolicy::AllowParallel,
        state.next_run_at is Some,
        state.next_run_at->0@ <= sight.now@,
        crate::scheduler::trigger::outcome_fits(job@, state@, sight.now@, rules.timezone@),
    ensures
        ({
            let outcome = crate::scheduler::trigger::trigger_outcome(
                job@,
                state@,
                sight.now@,
                rules.timezone@,
            );
            &&& r is Some
            &&& outcome.0 is Err <==> r->0 is Err
            &&& outcome.0 matches Err(error) ==> r->0->Err_0@ == error
            &&& outcome.0 matches Ok(DecisionView::Trigger(due)) ==> {
                &&& r->0->Ok_0.action is CheckDue
                &&& r->0->Ok_0.action->CheckDue_trigger@ == due
                &&& r->0->Ok_0.action->CheckDue_candidate_state@ == outcome.1
                &&& *final(memory) == (RuntimeLoop { phase: Phase::CheckingDue, ..*old(memory) })
            }
            &&& outcome.0 == Ok::<DecisionView, ErrorView>(DecisionView::StateAdvanced) ==> {
                &&& r->0->Ok_0.action is Save
                &&& r->0->Ok_0.action->Save_candidate_state@ == outcome.1
                &&& *final(memory) == (RuntimeLoop { phase: Phase::SavingAdvance, ..*old(memory) })
            }
            &&& r->0 is Ok ==> r->0->Ok_0.events@.len() == 0
        }),
{
}

/// While a replay must not overlap and a run is active, what is due is not looked
/// at, and the loop settles.
pub proof fn law_call_replay_waits(
    memory: &mut RuntimeLoop,
    job: &Job,
    rules: &LoopRules,
    state: &JobState,
    sight: &Sight,
    r: Option<Result<Turn, SchedulerError>>,
)
    requires
        call_ensures(
            RuntimeLoop::on_manual,
            (memory, job, rules, state, sight, None::<ManualTriggerRequest>),
            r,
        ),
        old(memory).active_count > 0,
        job.missed_run_policy == MissedRunPolicy::ReplayAll,
        job.overlap_policy != OverlapPolicy::AllowParallel,
    ensures
        r matches Some(Ok(turn)) && is_turn(
            turn,
            *final(memory),
            settled(*old(memory), *job, *rules, *state, *sight),
        ) && turn.action is Wait,
{
}

/// A due run is skipped where the job has a window that is closed at the second
/// reading of the clock, and otherwise dispatched by the overlap policy.
pub proof fn law_call_checked(
    memory: &mut RuntimeLoop,
    job: &Job,
    rules: &LoopRules,
    now: UtcTime,
    candidate_state: JobState,
    trigger: PendingTrigger,
    turn: Turn,
)
    requires
        call_ensures(
            RuntimeLoop::on_checked,
            (memory, job, rules, now, candidate_state, trigger),
            turn,
        ),
    ensures
        ({
            let closed = job.time_window is Some && !crate::model::time_window::open_at(
                job.time_window->0@,
                now@,
                rules.timezone@,
            );
            let starts = old(memory).active_count == 0 || job.overlap_policy
                == OverlapPolicy::AllowParallel;
            let waits = job.overlap_policy == OverlapPolicy::QueueOne && old(memory).queued_trigger is None;
            &&& turn.events@.len() == 0
            &&& turn.applied_mode is None
            &&& closed ==> turn.action == (LoopAction::Save { candidate_state }) && *final(memory)
                == (RuntimeLoop {
                phase: Phase::SavingSkip { trigger, reason: RunSkipReason::OutsideTimeWindow },
                ..*old(memory)
            })
            &&& !closed && starts ==> turn.action == (LoopAction::StartDue {
                candidate_state,
                trigger,
            }) && *final(memory) == (RuntimeLoop { phase: Phase::StartingDue, ..*old(memory) })
            &&& !closed && !starts ==> turn.action == (LoopAction::RecordDue {
                candidate_state,
                trigger,
            }) && *final(memory) == (RuntimeLoop {
                phase: Phase::RecordingDue,
                queued_trigger: if waits {
                    Some(trigger)
                } else {
                    old(memory).queued_trigger
                },
                ..*old(memory)
            })
        }),
{
    law_dispatch(*old(memory), *job, candidate_state, trigger);
}

/// A skip is told, and remembered as the last one, exactly once its state was
/// saved. A state that was moved on and could not be saved lets the loop settle.
pub proof fn law_call_saved(
    memory: &mut RuntimeLoop,
    job: &Job,
    rules: &LoopRules,
    state: &JobState,
    sight: &Sight,
    saved: bool,
    turn: Turn,
)
    requires
        call_ensures(RuntimeLoop::on_saved, (memory, job, rules, state, sight, saved), turn),
    ensures
        old(memory).phase matches Phase::SavingSkip { trigger, reason } ==> {
            &&& turn.action == LoopAction::Refresh
            &&& saved ==> turn.events@ == seq![
                SchedulerEvent::RunSkipped {
                    job_id: job.job_id,
                    scheduled_at: trigger.scheduled_at,
                    catch_up: trigger.catch_up,
                    trigger_count: trigger.trigger_count,
                    reason,
                },
            ] && *final(memory) == (RuntimeLoop {
                phase: Phase::Refreshing,
                last_skip_reason: Some(reason),
                ..*old(memory)
            })
            &&& !saved ==> turn.events@.len() == 0 && *final(memory) == (RuntimeLoop {
                phase: Phase::Refreshing,
                ..*old(memory)
            })
        },
        old(memory).phase == Phase::SavingAdvance && saved ==> turn.action == LoopAction::Refresh
            && turn.events@.len() == 0 && *final(memory) == (RuntimeLoop {
            phase: Phase::Refreshing,
            ..*old(memory)
        }),
        old(memory).phase == Phase::SavingAdvance && !saved ==> is_turn(
            turn,
            *final(memory),
            settled(*old(memory), *job, *rules, *state, *sight),
        ),
{
}

/// A run that was started counts as active, one that ended no longer does, and what
/// was only recorded never did; each time a new turn begins.
pub proof fn law_call_counting(
    queued: &mut RuntimeLoop,
    due: &mut RuntimeLoop,
    ended: &mut RuntimeLoop,
    woken: &mut RuntimeLoop,
    started: bool,
    queued_turn: Turn,
    due_turn: Turn,
    ended_turn: Turn,
    woken_turn: Turn,
)
    requires
        call_ensures(RuntimeLoop::on_queued_run, (queued, started), queued_turn),
        call_ensures(RuntimeLoop::on_due_handled, (due, started), due_turn),
        call_ensures(RuntimeLoop::on_run_ended, (ended,), ended_turn),
        call_ensures(RuntimeLoop::on_woken, (woken,), woken_turn),
        old(queued).active_count < usize::MAX,
        old(due).active_count < usize::MAX,
        old(ended).active_count > 0,
    ensures
        queued_turn.action == LoopAction::Refresh && queued_turn.events@.len() == 0,
        *final(queued) == (RuntimeLoop {
            phase: Phase::Refreshing,
            active_count: (old(queued).active_count + if started {
                1int
            } else {
                0
            }) as usize,
            ..*old(queued)
        }),
        due_turn.action == LoopAction::Refresh && due_turn.events@.len() == 0,
        *final(due) == (RuntimeLoop {
            phase: Phase::Refreshing,
            active_count: (old(due).active_count + if started && old(due).phase
                == Phase::StartingDue {
                1int
            } else {
                0
            }) as usize,
            ..*old(due)
        }),
        ended_turn.action == LoopAction::Refresh && ended_turn.events@.len() == 0,
        *final(ended) == (RuntimeLoop {
            phase: Phase::Refreshing,
            active_count: (old(ended).active_count - 1) as usize,
            ..*old(ended)
        }),
        woken_turn.action == LoopAction::Refresh && woken_turn.events@.len() == 0,
        *final(woken) == (RuntimeLoop { phase: Phase::Refreshing, ..*old(woken) }),
{
}

/// A claim that was taken over counts as active and begins a new turn; without one,
/// the trigger that was asked for is next.
pub proof fn law_call_reclaimed(memory: &mut RuntimeLoop, started: bool, turn: Turn)
    requires
        call_ensures(RuntimeLoop::on_reclaimed, (memory, started), turn),
        old(memory).active_count < usize::MAX,
    ensures
        turn.events@.len() == 0,
        started ==> turn.action == LoopAction::Refresh && *final(memory) == (RuntimeLoop {
            phase: Phase::Refreshing,
            active_count: (old(memory).active_count + 1) as usize,
            ..*old(memory)
        }),
        !started ==> turn.action == LoopAction::TakeManual && *final(memory) == (RuntimeLoop {
            phase: Phase::TakingManual,
            ..*old(memory)
        }),
{
}

/// At the start of a turn a command to stop ends an idle loop; otherwise a new
/// command to change the mode is followed; otherwise the turn goes on.
pub proof fn law_call_refreshed(
    memory: &mut RuntimeLoop,
    job: &Job,
    rules: &LoopRules,
    state: &JobState,
    sight: &Sight,
    turn: Turn,
)
    requires
        call_ensures(RuntimeLoop::on_refreshed, (memory, job, rules, state, sight), turn),
    ensures
        final(memory).control == sight.control,
        sight.control.stop_signal is Some && old(memory).active_count == 0 ==> turn.action
            == LoopAction::Stop && turn.events@ == seq![
            SchedulerEvent::SchedulerStopped {
                job_id: job.job_id,
                trigger_count: state.trigger_count,
                reason: if sight.control.stop_signal->0 == StopSignal::Cancel {
                    SchedulerStopReason::Cancelled
                } else {
                    SchedulerStopReason::Shutdown
                },
            },
        ],
        (sight.control.stop_signal is None || old(memory).active_count > 0)
            && sight.control.mode_command_seq != old(memory).last_seen_mode_command
            && sight.control.command_disposition == CommandDisposition::Apply ==> turn.action
            == LoopAction::SetMode(sight.control.desired_mode) && turn.events@.len() == 0
            && *final(memory) == (RuntimeLoop {
            phase: Phase::ChangingMode,
            control: sight.control,
            ..*old(memory)
        }),
        (sight.control.stop_signal is None || old(memory).active_count > 0)
            && sight.control.mode_command_seq != old(memory).last_seen_mode_command
            && sight.control.command_disposition is ObserveOnly ==> turn.applied_mode == Some(
            sight.control.desired_mode,
        ) && final(memory).last_seen_mode_command == sight.control.mode_command_seq,
        sight.control.stop_signal is None && sight.control.mode_command_seq == old(memory).last_seen_mode_command && !sight.paused && (old(memory).active_count > 0 || old(memory).queued_trigger is None) ==> turn.action == LoopAction::TryReclaim && turn.events@.len()
            == 0,
        sight.control.stop_signal is None && sight.control.mode_command_seq == old(memory).last_seen_mode_command && !sight.paused && old(memory).active_count == 0 && old(memory).queued_trigger is Some && (job.time_window is None || crate::model::time_window::open_at(
            job.time_window->0@,
            sight.now@,
            rules.timezone@,
        )) ==> turn.action == LoopAction::RunQueued(old(memory).queued_trigger->0) && final(memory).queued_trigger is None,
        sight.control.mode_command_seq == old(memory).last_seen_mode_command && sight.paused && (
        sight.control.stop_signal is None || old(memory).active_count > 0) ==> turn.action == (
        LoopAction::Wait {
            for_run: old(memory).active_count > 0,
            until: None,
            poll_millis: Some(50u64),
        }) && turn.events@.len() == 0,
        turn.action is StartDue || turn.action is RecordDue || turn.action is Save
            || turn.action is CheckDue ==> false,
{
}

/// A mode that was set is noted with the number of its command, and told where that
/// changed something.
pub proof fn law_call_mode_set(
    memory: &mut RuntimeLoop,
    job: &Job,
    rules: &LoopRules,
    state: &JobState,
    sight: &Sight,
    changed: bool,
    turn: Turn,
)
    requires
        call_ensures(RuntimeLoop::on_mode_set, (memory, job, rules, state, sight, changed), turn),
    ensures
        turn.applied_mode == Some(old(memory).control.desired_mode),
        final(memory).last_seen_mode_command == old(memory).control.mode_command_seq,
        changed && old(memory).control.desired_mode == SchedulerMode::Paused ==> turn.events@.len()
            > 0 && turn.events@[0] == (SchedulerEvent::SchedulerPaused {
            job_id: job.job_id,
            trigger_count: state.trigger_count,
            scope: rules.pause_scope,
        }),
        changed && old(memory).control.desired_mode == SchedulerMode::Running ==> turn.events@.len()
            > 0 && turn.events@[0] == (SchedulerEvent::SchedulerResumed {
            job_id: job.job_id,
            trigger_count: state.trigger_count,
            scope: rules.pause_scope,
        }),
        sight.paused && old(memory).control.stop_signal is None ==> turn.action == (
        LoopAction::Wait {
            for_run: old(memory).active_count > 0,
            until: None,
            poll_millis: Some(50u64),
        }) && turn.events@.len() == if changed {
            1int
        } else {
            0
        },
{
}

/// A job whose state was deleted, and one that no command can reach any more, ends,
/// and that is told.
pub proof fn law_call_endings(
    deleted: &mut RuntimeLoop,
    closed: &mut RuntimeLoop,
    job: &Job,
    state: &JobState,
    deleted_turn: Turn,
    closed_turn: Turn,
)
    requires
        call_ensures(RuntimeLoop::on_deleted, (deleted, job, state), deleted_turn),
        call_ensures(RuntimeLoop::on_channel_closed, (closed, job, state), closed_turn),
    ensures
        deleted_turn.action == LoopAction::Stop,
        deleted_turn.events@ == seq![
            SchedulerEvent::TerminalStateDeleted {
                job_id: job.job_id,
                trigger_count: state.trigger_count,
            },
            SchedulerEvent::SchedulerStopped {
                job_id: job.job_id,
                trigger_count: state.trigger_count,
                reason: SchedulerStopReason::Terminal,
            },
        ],
        closed_turn.action == LoopAction::Stop,
        closed_turn.events@ == seq![
            SchedulerEvent::SchedulerStopped {
                job_id: job.job_id,
                trigger_count: state.trigger_count,
                reason: SchedulerStopReason::ChannelClosed,
            },
        ],
{
}

} // verus!
