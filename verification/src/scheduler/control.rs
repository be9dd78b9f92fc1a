//! What is asked of a running scheduler from outside: to pause, to resume, to
//! stop, and to trigger at once.
use vstd::prelude::*;
use crate::error::{self, ErrorView, InvalidJobKind, SchedulerError};
use crate::text_map::TextMap;
use crate::time::UtcTime;

verus! {

#[derive(Debug, Clone, Copy, PartialEq, Eq, Structural)]
pub enum SchedulerMode {
    Running,
    Paused,
}

#[derive(Debug, Clone, Copy, PartialEq, Eq, Structural)]
pub enum StopSignal {
    Cancel,
    Shutdown,
}

/// Whether a scheduler is to change its mode itself, or is only to take note
/// of a change that was made elsewhere.
#[derive(Debug, Clone, Copy, PartialEq, Eq, Structural)]
pub enum CommandDisposition {
    Apply,
    ObserveOnly { changed: bool },
}

/// What the scheduler sees of the commands that were given.
#[derive(Debug, Clone, Copy, PartialEq, Eq, Structural)]
pub struct ControlSignal {
    pub desired_mode: SchedulerMode,
    pub mode_command_seq: u64,
    pub poke_seq: u64,
    pub command_disposition: CommandDisposition,
    pub stop_signal: Option<StopSignal>,
}

/// The next number of a sequence that stops at its greatest.
pub open spec fn next_seq(seq: u64) -> u64 {
    if seq == u64::MAX {
        seq
    } else {
        (seq + 1) as u64
    }
}

/// The signal before any command.
pub open spec fn initial_signal() -> ControlSignal {
    ControlSignal {
        desired_mode: SchedulerMode::Running,
        mode_command_seq: 0,
        poke_seq: 0,
        command_disposition: CommandDisposition::Apply,
        stop_signal: None,
    }
}

/// The signal after a command to change the mode.
pub open spec fn after_mode_command(
    signal: ControlSignal,
    desired_mode: SchedulerMode,
    command_disposition: CommandDisposition,
) -> ControlSignal {
    ControlSignal {
        desired_mode,
        command_disposition,
        mode_command_seq: next_seq(signal.mode_command_seq),
        ..signal
    }
}

/// The signal after a command to stop.
pub open spec fn after_stop(signal: ControlSignal, stop_signal: StopSignal) -> ControlSignal {
    ControlSignal { stop_signal: Some(stop_signal), ..signal }
}

/// The signal after a trigger was asked for.
pub open spec fn after_poke(signal: ControlSignal) -> ControlSignal {
    ControlSignal { poke_seq: next_seq(signal.poke_seq), ..signal }
}

impl ControlSignal {
    /// The signal before any command.
    pub fn running() -> (r: Self)
        ensures
            r == initial_signal(),
    {
        ControlSignal {
            desired_mode: SchedulerMode::Running,
            mode_command_seq: 0,
            poke_seq: 0,
            command_disposition: CommandDisposition::Apply,
            stop_signal: None,
        }
    }

    /// The signal after a command to change the mode.
    pub fn with_mode_command(
        self,
        desired_mode: SchedulerMode,
        command_disposition: CommandDisposition,
    ) -> (r: Self)
        ensures
            r == after_mode_command(self, desired_mode, command_disposition),
    {
        ControlSignal {
            desired_mode,
            command_disposition,
            mode_command_seq: self.mode_command_seq.saturating_add(1),
            ..self
        }
    }

    /// The signal after a command to stop.
    pub fn with_stop_signal(self, stop_signal: StopSignal) -> (r: Self)
        ensures
            r == after_stop(self, stop_signal),
    {
        ControlSignal { stop_signal: Some(stop_signal), ..self }
    }

    /// The signal at the start of a run: an earlier command to stop is gone.
    pub fn without_stop_signal(self) -> (r: Self)
        ensures
            r == (ControlSignal { stop_signal: None, ..self }),
    {
        ControlSignal { stop_signal: None, ..self }
    }

    /// The signal after a trigger was asked for.
    pub fn poked(self) -> (r: Self)
        ensures
            r == after_poke(self),
    {
        ControlSignal { poke_seq: self.poke_seq.saturating_add(1), ..self }
    }
}

/// Every command is noticed: until its number runs out, a command to change the
/// mode has a number of its own, and asking for a trigger changes the signal.
pub proof fn law_commands_are_noticed(
    signal: ControlSignal,
    mode: SchedulerMode,
    disposition: CommandDisposition,
)
    ensures
        signal.mode_command_seq < u64::MAX ==> after_mode_command(
            signal,
            mode,
            disposition,
        ).mode_command_seq > signal.mode_command_seq,
        signal.poke_seq < u64::MAX ==> after_poke(signal) != signal,
{
}

/// A command to stop is not taken back by the other commands.
pub proof fn law_stop_stays(
    signal: ControlSignal,
    mode: SchedulerMode,
    disposition: CommandDisposition,
)
    ensures
        after_mode_command(signal, mode, disposition).stop_signal == signal.stop_signal,
        after_poke(signal).stop_signal == signal.stop_signal,
{
}

/// A trigger that was asked for.
#[derive(Debug, Clone, Copy, PartialEq, Eq)]
pub struct ManualTriggerRequest {
    pub requested_at: UtcTime,
}

/// What is to be done about a command to change the mode: ask the store that
/// is shared for the job, or leave the change to the scheduler.
#[derive(Debug, PartialEq, Eq)]
pub enum ModeCommandPlan {
    AskSharedStore { job_id: String },
    LeaveToScheduler,
}

/// Plans a command to change the mode. A shared store is asked where there is
/// one and a job is active; otherwise the scheduler changes the mode itself.
pub fn plan_mode_command(
    has_shared_store: bool,
    active_job: Option<String>,
) -> (r: ModeCommandPlan)
    ensures
        match (has_shared_store, active_job) {
            (true, Some(job_id)) => r == (ModeCommandPlan::AskSharedStore { job_id }),
            _ => r == ModeCommandPlan::LeaveToScheduler,
        },
{
    match active_job {
        Some(job_id) => {
            if has_shared_store {
                ModeCommandPlan::AskSharedStore { job_id }
            } else {
                ModeCommandPlan::LeaveToScheduler
            }
        },
        None => ModeCommandPlan::LeaveToScheduler,
    }
}

/// How often a handle looks for an active job before it gives up.
pub const ACTIVE_JOB_LOOKS: u32 = 20;

/// How often a handle looks whether a mode took effect before it gives up.
pub const MODE_LOOKS: u32 = 100;

/// How long a handle waits between two looks, in milliseconds.
pub const LOOK_AGAIN_MILLIS: u64 = 5;

/// What a handle that looks for something does next.
#[derive(Debug, Clone, Copy, PartialEq, Eq, Structural)]
pub enum LookStep {
    /// It was found, or nothing more is waited for.
    Done,
    /// To wait so many milliseconds, and to look again.
    LookAfter { millis: u64 },
    /// To wait so many milliseconds, and to give up.
    GiveUpAfter { millis: u64 },
}

/// How often a handle may still look.
#[derive(Debug, Clone, Copy, PartialEq, Eq)]
pub struct Looks {
    pub left: u32,
}

/// What a handle that may look `left` times does after a look.
pub open spec fn look_step(left: u32, found: bool) -> LookStep {
    if found || left == 0 {
        LookStep::Done
    } else if left > 1 {
        LookStep::LookAfter { millis: LOOK_AGAIN_MILLIS }
    } else {
        LookStep::GiveUpAfter { millis: LOOK_AGAIN_MILLIS }
    }
}

impl Looks {
    /// Before the search for an active job. It ends with one more look, whose
    /// outcome stands.
    pub fn for_active_job() -> (r: Self)
        ensures
            r.left == ACTIVE_JOB_LOOKS,
    {
        Looks { left: ACTIVE_JOB_LOOKS }
    }

    /// Before the wait for a mode to take effect.
    pub fn for_mode() -> (r: Self)
        ensures
            r.left == MODE_LOOKS,
    {
        Looks { left: MODE_LOOKS }
    }

    /// Takes in whether a look found what was looked for.
    pub fn on_look(&mut self, found: bool) -> (r: LookStep)
        ensures
            r == look_step(old(self).left, found),
            final(self).left == if found || old(self).left == 0 {
                old(self).left as int
            } else {
                old(self).left - 1
            },
    {
        if found || self.left == 0 {
            return LookStep::Done;
        }
        self.left = self.left - 1;
        if self.left > 0 {
            LookStep::LookAfter { millis: LOOK_AGAIN_MILLIS }
        } else {
            LookStep::GiveUpAfter { millis: LOOK_AGAIN_MILLIS }
        }
    }
}

/// What the handles of a scheduler and its runs share: the jobs that are
/// active, the triggers that were asked for, and the modes that took effect.
#[derive(Debug)]
pub struct SharedControl {
    active_jobs: TextMap<()>,
    manual_triggers: TextMap<ManualTriggerRequest>,
    applied_modes: TextMap<SchedulerMode>,
}

/// What a [`SharedControl`] holds.
pub struct SharedControlView {
    pub active_jobs: Set<Seq<char>>,
    pub manual_triggers: Map<Seq<char>, ManualTriggerRequest>,
    pub applied_modes: Map<Seq<char>, SchedulerMode>,
}

impl View for SharedControl {
    type V = SharedControlView;

    closed spec fn view(&self) -> SharedControlView {
        SharedControlView {
            active_jobs: self.active_jobs@.dom(),
            manual_triggers: self.manual_triggers@,
            applied_modes: self.applied_modes@,
        }
    }
}

/// The error of a command that needs one active job and finds several.
pub open spec fn several_jobs_error() -> ErrorView {
    error::other_job_error(
        "pause/resume/trigger_now requires exactly one active job for coordinated schedulers"@,
    )
}

/// The error of a trigger that is asked for without an active job.
pub open spec fn no_job_error() -> ErrorView {
    error::other_job_error("trigger_now requires exactly one active job"@)
}

/// Whether two jobs are active.
pub open spec fn several_active(jobs: Set<Seq<char>>) -> bool {
    exists|a: Seq<char>, b: Seq<char>| a != b && #[trigger] jobs.contains(a) && #[trigger]
        jobs.contains(b)
}

impl SharedControl {
    pub fn new() -> (r: Self)
        ensures
            r@.active_jobs == Set::<Seq<char>>::empty(),
            r@.manual_triggers == Map::<Seq<char>, ManualTriggerRequest>::empty(),
            r@.applied_modes == Map::<Seq<char>, SchedulerMode>::empty(),
    {
        let r = SharedControl {
            active_jobs: TextMap::new(),
            manual_triggers: TextMap::new(),
            applied_modes: TextMap::new(),
        };
        assert(r@.active_jobs =~= Set::<Seq<char>>::empty());
        r
    }

    /// Notes that a job is active.
    pub fn activate(&mut self, job_id: &str)
        ensures
            final(self)@ == (SharedControlView {
                active_jobs: old(self)@.active_jobs.insert(job_id@),
                ..old(self)@
            }),
    {
        self.active_jobs.insert(job_id, ());
        assert(self@.active_jobs =~= old(self)@.active_jobs.insert(job_id@));
    }

    /// Notes that a job is no longer active.
    pub fn deactivate(&mut self, job_id: &str)
        ensures
            final(self)@ == (SharedControlView {
                active_jobs: old(self)@.active_jobs.remove(job_id@),
                ..old(self)@
            }),
    {
        let _ = self.active_jobs.remove(job_id);
        assert(self@.active_jobs =~= old(self)@.active_jobs.remove(job_id@));
    }

    /// The one job that is active: `None` where there is none, and an error
    /// where there are several.
    pub fn single_active_job_id(&self) -> (r: Result<Option<String>, SchedulerError>)
        ensures
            match r {
                Ok(None) => self@.active_jobs == Set::<Seq<char>>::empty(),
                Ok(Some(job_id)) => self@.active_jobs == Set::<Seq<char>>::empty().insert(job_id@),
                Err(error) => several_active(self@.active_jobs) && error@ == several_jobs_error(),
            },
    {
        let mut keys = self.active_jobs.keys();
        let ghost jobs = self@.active_jobs;
        let ghost names = keys@;
        assert forall|i: int| 0 <= i < names.len() implies jobs.contains(
            (#[trigger] names[i])@,
        ) by {
            assert(self.active_jobs@.contains_key(names[i]@));
        }
        if keys.len() == 0 {
            assert(jobs =~= Set::<Seq<char>>::empty());
            return Ok(None);
        }
        if keys.len() > 1 {
            assert(names[0]@ != names[1]@);
            assert(jobs.contains(names[0]@) && jobs.contains(names[1]@));
            return Err(
                SchedulerError::invalid_job_with_kind(
                    InvalidJobKind::Other,
                    "pause/resume/trigger_now requires exactly one active job for coordinated schedulers",
                ),
            );
        }
        let only = keys.remove(0);
        assert(only == names[0]);
        assert(jobs =~= Set::<Seq<char>>::empty().insert(only@));
        Ok(Some(only))
    }

    /// Notes a trigger that is asked for, for the one job that is active; it
    /// takes the place of an earlier one that was not served yet.
    pub fn request_trigger(&mut self, requested_at: UtcTime) -> (r: Result<(), SchedulerError>)
        ensures
            match r {
                Ok(()) => exists|job_id: Seq<char>|
                    old(self)@.active_jobs == #[trigger] Set::<Seq<char>>::empty().insert(job_id)
                        && final(self)@ == (SharedControlView {
                        manual_triggers: old(self)@.manual_triggers.insert(
                            job_id,
                            ManualTriggerRequest { requested_at },
                        ),
                        ..old(self)@
                    }),
                Err(error) => final(self)@ == old(self)@ && ((old(self)@.active_jobs == Set::<
                    Seq<char>,
                >::empty() && error@ == no_job_error()) || (several_active(old(self)@.active_jobs)
                    && error@ == several_jobs_error())),
            },
    {
        match self.single_active_job_id() {
            Err(error) => Err(error),
            Ok(None) => Err(
                SchedulerError::invalid_job_with_kind(
                    InvalidJobKind::Other,
                    "trigger_now requires exactly one active job",
                ),
            ),
            Ok(Some(job_id)) => {
                self.manual_triggers.insert(
                    job_id.as_str(),
                    ManualTriggerRequest { requested_at },
                );
                Ok(())
            },
        }
    }

    /// Takes the trigger that was asked for a job.
    pub fn take_trigger(&mut self, job_id: &str) -> (r: Option<ManualTriggerRequest>)
        ensures
            final(self)@ == (SharedControlView {
                manual_triggers: old(self)@.manual_triggers.remove(job_id@),
                ..old(self)@
            }),
            match r {
                Some(request) => old(self)@.manual_triggers.contains_key(job_id@) && old(
                    self,
                )@.manual_triggers[job_id@] == request,
                None => !old(self)@.manual_triggers.contains_key(job_id@),
            },
    {
        self.manual_triggers.remove(job_id)
    }

    /// Whether a trigger was asked for a job and not served yet.
    pub fn has_trigger(&self, job_id: &str) -> (r: bool)
        ensures
            r == self@.manual_triggers.contains_key(job_id@),
    {
        self.manual_triggers.contains_key(job_id)
    }

    /// Notes the mode that took effect for a job.
    pub fn record_mode(&mut self, job_id: &str, mode: SchedulerMode)
        ensures
            final(self)@ == (SharedControlView {
                applied_modes: old(self)@.applied_modes.insert(job_id@, mode),
                ..old(self)@
            }),
    {
        self.applied_modes.insert(job_id, mode);
    }

    /// Whether a mode took effect for a job.
    pub fn mode_applied(&self, job_id: &str, expected_mode: SchedulerMode) -> (r: bool)
        ensures
            r == (self@.applied_modes.contains_key(job_id@) && self@.applied_modes[job_id@]
                == expected_mode),
    {
        match self.applied_modes.get(job_id) {
            Some(mode) => *mode == expected_mode,
            None => false,
        }
    }
}

/// A command to change the mode sets the mode and how it is to be taken, and
/// counts up; the count stops at its greatest value. Nothing else changes.
pub proof fn law_call_mode_command(
    signal: ControlSignal,
    mode: SchedulerMode,
    disposition: CommandDisposition,
    r: ControlSignal,
)
    requires
        call_ensures(ControlSignal::with_mode_command, (signal, mode, disposition), r),
    ensures
        r.desired_mode == mode,
        r.command_disposition == disposition,
        signal.mode_command_seq < 0xffff_ffff_ffff_ffff ==> r.mode_command_seq
            == signal.mode_command_seq + 1,
        signal.mode_command_seq == 0xffff_ffff_ffff_ffff ==> r.mode_command_seq
            == 0xffff_ffff_ffff_ffff,
        r.poke_seq == signal.poke_seq,
        r.stop_signal == signal.stop_signal,
{
}

/// A trigger that is asked for counts up, and a command to stop sets its signal;
/// neither changes anything else.
pub proof fn law_call_signals(
    signal: ControlSignal,
    stop: StopSignal,
    started: ControlSignal,
    poked: ControlSignal,
    stopped: ControlSignal,
    cleared: ControlSignal,
)
    requires
        call_ensures(ControlSignal::running, (), started),
        call_ensures(ControlSignal::poked, (signal,), poked),
        call_ensures(ControlSignal::with_stop_signal, (signal, stop), stopped),
        call_ensures(ControlSignal::without_stop_signal, (stopped,), cleared),
    ensures
        started.desired_mode == SchedulerMode::Running,
        started.mode_command_seq == 0,
        started.poke_seq == 0,
        started.command_disposition == CommandDisposition::Apply,
        started.stop_signal is None,
        signal.poke_seq < 0xffff_ffff_ffff_ffff ==> poked.poke_seq == signal.poke_seq + 1,
        signal.poke_seq == 0xffff_ffff_ffff_ffff ==> poked.poke_seq == 0xffff_ffff_ffff_ffff,
        poked == (ControlSignal { poke_seq: poked.poke_seq, ..signal }),
        stopped == (ControlSignal { stop_signal: Some(stop), ..signal }),
        cleared == (ControlSignal { stop_signal: None, ..signal }),
{
}

/// A handle looks again every five milliseconds, until it found what it looks
/// for or has no looks left; after its last look it still waits once.
pub proof fn law_call_look(looks: &mut Looks, found: bool, r: LookStep)
    requires
        call_ensures(Looks::on_look, (looks, found), r),
    ensures
        found || old(looks).left == 0 ==> r == LookStep::Done && final(looks).left == old(
            looks
        ).left,
        !found && old(looks).left > 0 ==> final(looks).left == old(looks).left - 1,
        !found && old(looks).left > 1 ==> r == (LookStep::LookAfter { millis: 5 }),
        !found && old(looks).left == 1 ==> r == (LookStep::GiveUpAfter { millis: 5 }),
{
}

/// There are twenty looks for an active job, and a hundred for a mode.
pub proof fn law_call_looks(for_job: Looks, for_mode: Looks)
    requires
        call_ensures(Looks::for_active_job, (), for_job),
        call_ensures(Looks::for_mode, (), for_mode),
    ensures
        for_job.left == 20,
        for_mode.left == 100,
{
}

/// A shared store is asked exactly where there is one and a job is active, and
/// for that job.
pub proof fn law_call_plan_mode(shared: bool, active: Option<String>, r: ModeCommandPlan)
    requires
        call_ensures(plan_mode_command, (shared, active), r),
    ensures
        r is AskSharedStore <==> shared && active is Some,
        r matches ModeCommandPlan::AskSharedStore { job_id } ==> active == Some(job_id),
{
}

/// A trigger that is asked for is noted for the one active job, whatever was
/// noted for it before. With no active job, and with several, it is refused and
/// nothing is noted.
pub proof fn law_call_request_trigger(
    control: &mut SharedControl,
    requested_at: UtcTime,
    r: Result<(), SchedulerError>,
    job_id: Seq<char>,
    other: Seq<char>,
)
    requires
        call_ensures(SharedControl::request_trigger, (control, requested_at), r),
    ensures
        final(control)@.active_jobs == old(control)@.active_jobs,
        final(control)@.applied_modes == old(control)@.applied_modes,
        old(control)@.active_jobs == Set::<Seq<char>>::empty().insert(job_id) ==> {
            &&& r is Ok
            &&& final(control)@.manual_triggers.contains_key(job_id)
            &&& final(control)@.manual_triggers[job_id].requested_at == requested_at
            &&& other != job_id ==> final(control)@.manual_triggers.contains_key(other) == old(
                control
            )@.manual_triggers.contains_key(other)
        },
        old(control)@.active_jobs == Set::<Seq<char>>::empty() ==> r is Err && r->Err_0@
            == ErrorView::InvalidJob(
            InvalidJobKind::Other,
            "trigger_now requires exactly one active job"@,
        ) && final(control)@ == old(control)@,
        job_id != other && old(control)@.active_jobs.contains(job_id) && old(
            control
        )@.active_jobs.contains(other) ==> r is Err && r->Err_0@ == ErrorView::InvalidJob(
            InvalidJobKind::Other,
            "pause/resume/trigger_now requires exactly one active job for coordinated schedulers"@,
        ) && final(control)@ == old(control)@,
{
    let jobs = old(control)@.active_jobs;
    if jobs == Set::<Seq<char>>::empty().insert(job_id) {
        assert(jobs.contains(job_id));
        assert(!several_active(jobs));
        if let Ok(_) = r {
            let found = choose|found: Seq<char>|
                jobs == #[trigger] Set::<Seq<char>>::empty().insert(found) && final(control)@ == (
                SharedControlView {
                    manual_triggers: old(control)@.manual_triggers.insert(
                        found,
                        ManualTriggerRequest { requested_at },
                    ),
                    ..old(control)@
                });
            assert(jobs.contains(found));
        }
    }
    if jobs == Set::<Seq<char>>::empty() {
        assert(!several_active(jobs));
        if let Ok(_) = r {
            let found = choose|found: Seq<char>|
                jobs == #[trigger] Set::<Seq<char>>::empty().insert(found);
            assert(jobs.contains(found));
        }
    }
    if job_id != other && jobs.contains(job_id) && jobs.contains(other) {
        assert(several_active(jobs));
        if let Ok(_) = r {
            let found = choose|found: Seq<char>|
                jobs == #[trigger] Set::<Seq<char>>::empty().insert(found);
            assert(job_id == found && other == found);
        }
    }
}

/// The one job that is active is found, and neither none nor several are taken
/// for one.
pub proof fn law_call_single_active(
    control: &SharedControl,
    r: Result<Option<String>, SchedulerError>,
    job_id: Seq<char>,
    other: Seq<char>,
)
    requires
        call_ensures(SharedControl::single_active_job_id, (control,), r),
    ensures
        control@.active_jobs == Set::<Seq<char>>::empty() ==> r is Ok && r->Ok_0 is None,
        control@.active_jobs == Set::<Seq<char>>::empty().insert(job_id) ==> r is Ok && r->Ok_0
            is Some && r->Ok_0->0@ == job_id,
        job_id != other && control@.active_jobs.contains(job_id) && control@.active_jobs.contains(
            other,
        ) ==> r is Err,
{
    let jobs = control@.active_jobs;
    if jobs == Set::<Seq<char>>::empty().insert(job_id) {
        assert(jobs.contains(job_id));
        assert(!several_active(jobs));
        if let Ok(Some(found)) = r {
            assert(jobs.contains(found@));
        }
    }
    if let Ok(Some(found)) = r {
        assert(jobs.contains(found@));
    }
}

} // verus!
