//! When a job is due, and what the scheduler does about due times that it
//! could not serve.
use vstd::prelude::*;
use crate::model::cron_schedule::CronSchedule;
use crate::model::time_window::{JobTimeWindow, WindowView};
use crate::time::{Duration, UtcTime};
use crate::zone::Timezone;

verus! {

pub open spec fn text_view(text: Option<String>) -> Option<Seq<char>> {
    match text {
        Some(value) => Some(value@),
        None => None,
    }
}

pub open spec fn span_view(span: Option<Duration>) -> Option<int> {
    match span {
        Some(value) => Some(value@),
        None => None,
    }
}

/// A copy of an optional text.
pub fn clone_text(text: &Option<String>) -> (r: Option<String>)
    ensures
        r == *text,
{
    match text {
        Some(value) => Some(value.clone()),
        None => None,
    }
}

/// Interval schedule with a stable phase derived from a seed.
#[derive(Debug, PartialEq, Eq)]
pub struct StaggeredIntervalSchedule {
    pub every: Duration,
    pub seed: Option<String>,
}

impl Clone for StaggeredIntervalSchedule {
    fn clone(&self) -> (r: Self)
        ensures
            r == *self,
    {
        StaggeredIntervalSchedule { every: self.every, seed: clone_text(&self.seed) }
    }
}

impl StaggeredIntervalSchedule {
    pub fn new(every: Duration) -> (r: Self)
        ensures
            r == (StaggeredIntervalSchedule { every, seed: None }),
    {
        StaggeredIntervalSchedule { every, seed: None }
    }

    pub fn with_seed(self, seed: &str) -> (r: Self)
        ensures
            r.every == self.every,
            text_view(r.seed) == Some(seed@),
    {
        StaggeredIntervalSchedule { every: self.every, seed: Some(seed.to_owned()) }
    }
}

/// Interval schedule of one member of a group whose members are spread evenly
/// across each interval.
#[derive(Debug, PartialEq, Eq)]
pub struct GroupedIntervalSchedule {
    pub every: Duration,
    pub group_size: u32,
    pub member_index: u32,
    pub group_seed: Option<String>,
}

impl Clone for GroupedIntervalSchedule {
    fn clone(&self) -> (r: Self)
        ensures
            r == *self,
    {
        GroupedIntervalSchedule {
            every: self.every,
            group_size: self.group_size,
            member_index: self.member_index,
            group_seed: clone_text(&self.group_seed),
        }
    }
}

impl GroupedIntervalSchedule {
    pub fn new(every: Duration, group_size: u32, member_index: u32) -> (r: Self)
        ensures
            r == (GroupedIntervalSchedule { every, group_size, member_index, group_seed: None }),
    {
        GroupedIntervalSchedule { every, group_size, member_index, group_seed: None }
    }

    pub fn with_group_seed(self, group_seed: &str) -> (r: Self)
        ensures
            r.every == self.every,
            r.group_size == self.group_size,
            r.member_index == self.member_index,
            text_view(r.group_seed) == Some(group_seed@),
    {
        GroupedIntervalSchedule {
            every: self.every,
            group_size: self.group_size,
            member_index: self.member_index,
            group_seed: Some(group_seed.to_owned()),
        }
    }
}

/// What a [`GroupedCronSchedule`] says; spans in nanoseconds.
pub struct GroupedCronView {
    pub cron: Seq<char>,
    pub spread: int,
    pub group_size: nat,
    pub member_index: nat,
    pub group_seed: Option<Seq<char>>,
}

/// Cron schedule of one member of a group whose members are spread evenly over
/// a span that starts at each occurrence.
#[derive(Debug, PartialEq, Eq)]
pub struct GroupedCronSchedule {
    pub cron: CronSchedule,
    pub spread: Duration,
    pub group_size: u32,
    pub member_index: u32,
    pub group_seed: Option<String>,
}

impl View for GroupedCronSchedule {
    type V = GroupedCronView;

    open spec fn view(&self) -> GroupedCronView {
        GroupedCronView {
            cron: self.cron@,
            spread: self.spread@,
            group_size: self.group_size as nat,
            member_index: self.member_index as nat,
            group_seed: text_view(self.group_seed),
        }
    }
}

impl Clone for GroupedCronSchedule {
    fn clone(&self) -> (r: Self)
        ensures
            r == *self,
    {
        GroupedCronSchedule {
            cron: self.cron.clone(),
            spread: self.spread,
            group_size: self.group_size,
            member_index: self.member_index,
            group_seed: clone_text(&self.group_seed),
        }
    }
}

impl GroupedCronSchedule {
    pub fn new(
        cron: CronSchedule,
        spread: Duration,
        group_size: u32,
        member_index: u32,
    ) -> (r: Self)
        ensures
            r == (GroupedCronSchedule { cron, spread, group_size, member_index, group_seed: None }),
    {
        GroupedCronSchedule { cron, spread, group_size, member_index, group_seed: None }
    }

    pub fn with_group_seed(self, group_seed: &str) -> (r: Self)
        ensures
            r@ == (GroupedCronView { group_seed: Some(group_seed@), ..self@ }),
    {
        GroupedCronSchedule {
            cron: self.cron,
            spread: self.spread,
            group_size: self.group_size,
            member_index: self.member_index,
            group_seed: Some(group_seed.to_owned()),
        }
    }
}

/// The interval that holds while a window is open; `None` is no trigger at
/// all.
#[derive(Debug, PartialEq, Eq)]
pub struct IntervalWindow {
    pub window: JobTimeWindow,
    pub every: Option<Duration>,
}

impl View for IntervalWindow {
    type V = (WindowView, Option<int>);

    open spec fn view(&self) -> (WindowView, Option<int>) {
        (self.window@, span_view(self.every))
    }
}

impl Clone for IntervalWindow {
    fn clone(&self) -> (r: Self)
        ensures
            r@ == self@,
    {
        IntervalWindow { window: self.window.clone(), every: self.every }
    }
}

/// What a [`WindowedIntervalSchedule`] says; spans in nanoseconds.
pub struct WindowedView {
    pub default_every: Option<int>,
    pub windows: Seq<(WindowView, Option<int>)>,
}

/// Interval schedule whose interval depends on local time: the first window
/// that is open decides, and `default_every` where none is.
#[derive(Debug, PartialEq, Eq)]
pub struct WindowedIntervalSchedule {
    pub default_every: Option<Duration>,
    pub windows: Vec<IntervalWindow>,
}

impl View for WindowedIntervalSchedule {
    type V = WindowedView;

    open spec fn view(&self) -> WindowedView {
        WindowedView {
            default_every: span_view(self.default_every),
            windows: self.windows@.map_values(|window: IntervalWindow| window@),
        }
    }
}

impl Clone for WindowedIntervalSchedule {
    fn clone(&self) -> (r: Self)
        ensures
            r@ == self@,
    {
        let windows = self.windows.clone();
        let r = WindowedIntervalSchedule { default_every: self.default_every, windows };
        proof {
            assert forall|i: int| 0 <= i < self.windows@.len() implies windows@[i]@
                == #[trigger] self.windows@[i]@ by {
                assert(cloned::<IntervalWindow>(self.windows[i], windows[i]));
            }
            assert(r@.windows =~= self@.windows);
        }
        r
    }
}

impl WindowedIntervalSchedule {
    pub fn new(default_every: Option<Duration>) -> (r: Self)
        ensures
            r@.default_every == span_view(default_every),
            r@.windows.len() == 0,
    {
        WindowedIntervalSchedule { default_every, windows: Vec::new() }
    }

    /// Adds a window after those that are there.
    pub fn with_window(self, window: JobTimeWindow, every: Option<Duration>) -> (r: Self)
        ensures
            r@.default_every == self@.default_every,
            r@.windows == self@.windows.push((window@, span_view(every))),
    {
        let default_every = self.default_every;
        let mut windows = self.windows;
        windows.push(IntervalWindow { window, every });
        let r = WindowedIntervalSchedule { default_every, windows };
        assert(r@.windows =~= self@.windows.push((window@, span_view(every))));
        r
    }
}

/// What a [`Schedule`] says; spans and instants in nanoseconds.
pub enum ScheduleView {
    Interval(int),
    StaggeredInterval { every: int, seed: Option<Seq<char>> },
    GroupedInterval {
        every: int,
        group_size: nat,
        member_index: nat,
        group_seed: Option<Seq<char>>,
    },
    WindowedInterval(WindowedView),
    AtTimes(Seq<int>),
    Cron(Seq<char>),
    GroupedCron(GroupedCronView),
}

#[derive(Debug, PartialEq, Eq)]
pub enum Schedule {
    /// Trigger repeatedly after the given interval.
    Interval(Duration),
    /// Trigger repeatedly after the given interval with a stable phase.
    ///
    /// The first run is aligned to a deterministic phase derived from the
    /// seed. If no seed is provided, the job id is used.
    StaggeredInterval(StaggeredIntervalSchedule),
    /// Trigger repeatedly after the given interval, with the members of a
    /// group spread evenly across it.
    GroupedInterval(GroupedIntervalSchedule),
    /// Trigger repeatedly after an interval that local time windows select.
    WindowedInterval(WindowedIntervalSchedule),
    /// Trigger at the listed times.
    ///
    /// The list is sorted before execution starts. An empty list is treated as
    /// a no-op schedule and exits without running.
    AtTimes(Vec<UtcTime>),
    /// Trigger using a standard 5-field cron expression.
    ///
    /// The scheduler timezone is used to calculate the next matching wall-clock
    /// time. The expression itself does not carry timezone information.
    Cron(CronSchedule),
    /// Trigger after each occurrence of a cron expression, with the members of
    /// a group spread evenly over a span.
    GroupedCron(GroupedCronSchedule),
}

impl View for Schedule {
    type V = ScheduleView;

    open spec fn view(&self) -> ScheduleView {
        match self {
            Schedule::Interval(every) => ScheduleView::Interval(every@),
            Schedule::StaggeredInterval(staggered) => ScheduleView::StaggeredInterval {
                every: staggered.every@,
                seed: text_view(staggered.seed),
            },
            Schedule::GroupedInterval(grouped) => ScheduleView::GroupedInterval {
                every: grouped.every@,
                group_size: grouped.group_size as nat,
                member_index: grouped.member_index as nat,
                group_seed: text_view(grouped.group_seed),
            },
            Schedule::WindowedInterval(windowed) => ScheduleView::WindowedInterval(windowed@),
            Schedule::AtTimes(times) => ScheduleView::AtTimes(
                times@.map_values(|instant: UtcTime| instant@),
            ),
            Schedule::Cron(cron) => ScheduleView::Cron(cron@),
            Schedule::GroupedCron(grouped) => ScheduleView::GroupedCron(grouped@),
        }
    }
}

impl Clone for Schedule {
    fn clone(&self) -> (r: Self)
        ensures
            r@ == self@,
    {
        match self {
            Schedule::Interval(every) => Schedule::Interval(*every),
            Schedule::StaggeredInterval(staggered) => Schedule::StaggeredInterval(
                staggered.clone(),
            ),
            Schedule::GroupedInterval(grouped) => Schedule::GroupedInterval(grouped.clone()),
            Schedule::WindowedInterval(windowed) => Schedule::WindowedInterval(windowed.clone()),
            Schedule::AtTimes(times) => {
                let copy = times.clone();
                assert(copy@ =~= times@);
                Schedule::AtTimes(copy)
            },
            Schedule::Cron(cron) => Schedule::Cron(cron.clone()),
            Schedule::GroupedCron(grouped) => Schedule::GroupedCron(grouped.clone()),
        }
    }
}

impl Schedule {
    /// Create a staggered interval schedule that defaults to the job id as
    /// the phase seed.
    pub fn staggered_interval(every: Duration) -> (r: Self)
        ensures
            r@ == (ScheduleView::StaggeredInterval { every: every@, seed: None }),
    {
        Schedule::StaggeredInterval(StaggeredIntervalSchedule::new(every))
    }

    /// Create a staggered interval schedule with an explicit phase seed.
    pub fn staggered_interval_with_seed(every: Duration, seed: &str) -> (r: Self)
        ensures
            r@ == (ScheduleView::StaggeredInterval { every: every@, seed: Some(seed@) }),
    {
        Schedule::StaggeredInterval(StaggeredIntervalSchedule::new(every).with_seed(seed))
    }

    /// Create the schedule of one member of an evenly spread group.
    pub fn grouped_interval(every: Duration, group_size: u32, member_index: u32) -> (r: Self)
        ensures
            r@ == (ScheduleView::GroupedInterval {
                every: every@,
                group_size: group_size as nat,
                member_index: member_index as nat,
                group_seed: None,
            }),
    {
        Schedule::GroupedInterval(GroupedIntervalSchedule::new(every, group_size, member_index))
    }

    /// Create the schedule of one member of an evenly spread group whose phase
    /// is derived from a seed.
    pub fn grouped_interval_with_seed(
        every: Duration,
        group_size: u32,
        member_index: u32,
        group_seed: &str,
    ) -> (r: Self)
        ensures
            r@ == (ScheduleView::GroupedInterval {
                every: every@,
                group_size: group_size as nat,
                member_index: member_index as nat,
                group_seed: Some(group_seed@),
            }),
    {
        Schedule::GroupedInterval(
            GroupedIntervalSchedule::new(every, group_size, member_index).with_group_seed(
                group_seed,
            ),
        )
    }

    /// Create a windowed interval schedule without windows.
    pub fn windowed_interval(default_every: Option<Duration>) -> (r: Self)
        ensures
            r@ matches ScheduleView::WindowedInterval(view) && view.default_every == span_view(
                default_every,
            ) && view.windows.len() == 0,
    {
        Schedule::WindowedInterval(WindowedIntervalSchedule::new(default_every))
    }
}

/// What happens to due times that have passed unserved.
#[derive(Debug, Clone, Copy, PartialEq, Eq, Structural)]
pub enum MissedRunPolicy {
    Skip,
    CatchUpOnce,
    ReplayAll,
}

impl Default for MissedRunPolicy {
    fn default() -> (r: Self)
        ensures
            r == MissedRunPolicy::CatchUpOnce,
    {
        MissedRunPolicy::CatchUpOnce
    }
}

/// What happens to a trigger that comes while a run is active.
#[derive(Debug, Clone, Copy, PartialEq, Eq, Structural)]
pub enum OverlapPolicy {
    Forbid,
    QueueOne,
    AllowParallel,
}

impl Default for OverlapPolicy {
    fn default() -> (r: Self)
        ensures
            r == OverlapPolicy::Forbid,
    {
        OverlapPolicy::Forbid
    }
}

/// What happens to the persisted state of a job that is finished.
#[derive(Debug, Clone, Copy, PartialEq, Eq, Structural)]
pub enum TerminalStatePolicy {
    Retain,
    Delete,
}

impl Default for TerminalStatePolicy {
    fn default() -> (r: Self)
        ensures
            r == TerminalStatePolicy::Retain,
    {
        TerminalStatePolicy::Retain
    }
}

/// Whether interval-style due times are moved into the window of the job.
#[derive(Debug, Clone, Copy, PartialEq, Eq, Structural)]
pub enum TimeWindowAlignment {
    Disabled,
    AlignToNextWindow,
}

impl Default for TimeWindowAlignment {
    fn default() -> (r: Self)
        ensures
            r == TimeWindowAlignment::Disabled,
    {
        TimeWindowAlignment::Disabled
    }
}

#[derive(Debug)]
pub struct SchedulerConfig {
    /// The timezone forwarded to each run and used to evaluate
    /// [`Schedule::Cron`] expressions.
    ///
    /// This does not rewrite [`Schedule::AtTimes`] values, which are instants.
    pub timezone: Timezone,
    /// The maximum number of run records kept in memory.
    pub history_limit: usize,
    /// Controls how persisted state is handled once a job reaches a terminal
    /// state (`next_run_at == None` and no further work is pending).
    pub terminal_state_policy: TerminalStatePolicy,
}

impl Clone for SchedulerConfig {
    fn clone(&self) -> (r: Self)
        ensures
            r == *self,
    {
        SchedulerConfig {
            timezone: self.timezone.clone(),
            history_limit: self.history_limit,
            terminal_state_policy: self.terminal_state_policy,
        }
    }
}

impl Default for SchedulerConfig {
    fn default() -> (r: Self)
        ensures
            r.timezone@ == "Asia/Shanghai"@,
            r.history_limit == 32,
            r.terminal_state_policy == TerminalStatePolicy::Retain,
    {
        SchedulerConfig {
            timezone: Timezone::shanghai(),
            history_limit: 32,
            terminal_state_policy: TerminalStatePolicy::Retain,
        }
    }
}

} // verus!
