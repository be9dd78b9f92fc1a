//! Local weekdays and times of day in which a job may run.
use vstd::prelude::*;
use crate::time::{self, previous_weekday, TimeOfDay, UtcTime, Weekday};
use crate::zone::{self, zone_or, Timezone};

verus! {

/// Why an occurrence was consumed without running the task.
#[derive(Debug, Clone, Copy, PartialEq, Eq, Structural)]
pub enum RunSkipReason {
    OutsideTimeWindow,
}

impl RunSkipReason {
    pub fn as_str(self) -> (r: &'static str)
        ensures
            r@ == match self {
                RunSkipReason::OutsideTimeWindow => "outside_time_window"@,
            },
    {
        match self {
            RunSkipReason::OutsideTimeWindow => "outside_time_window",
        }
    }

    /// The text shown to people, which is that of [`RunSkipReason::as_str`].
    pub fn to_string(&self) -> (r: String)
        ensures
            r@ == match *self {
                RunSkipReason::OutsideTimeWindow => "outside_time_window"@,
            },
    {
        (*self).as_str().to_owned()
    }
}

/// Whether a time of day lies in the segment from `start` to `end`. The end is
/// outside; a segment whose start is after its end goes on past midnight.
pub open spec fn segment_contains(segment: (int, int), time: int) -> bool {
    if segment.0 <= segment.1 {
        segment.0 <= time < segment.1
    } else {
        time >= segment.0 || time < segment.1
    }
}

/// The weekday on which the part of the segment that holds `time` began.
pub open spec fn segment_weekday(segment: (int, int), weekday: Weekday, time: int) -> Weekday {
    if segment.0 <= segment.1 || time >= segment.0 {
        weekday
    } else {
        time::weekday_before(weekday)
    }
}

/// A span of a local day.
#[derive(Debug, Clone, Copy, PartialEq, Eq)]
pub struct TimeWindowSegment {
    pub start: TimeOfDay,
    pub end: TimeOfDay,
}

impl View for TimeWindowSegment {
    type V = (int, int);

    open spec fn view(&self) -> (int, int) {
        (self.start@, self.end@)
    }
}

impl TimeWindowSegment {
    pub fn new(start: TimeOfDay, end: TimeOfDay) -> (r: Self)
        ensures
            r == (TimeWindowSegment { start, end }),
    {
        TimeWindowSegment { start, end }
    }

    /// Whether the segment ends on the day on which it starts.
    pub fn ends_same_day(&self) -> (r: bool)
        ensures
            r == (self@.0 <= self@.1),
    {
        self.start.nanos() <= self.end.nanos()
    }

    pub fn contains_time(&self, time: TimeOfDay) -> (r: bool)
        ensures
            r == segment_contains(self@, time@),
    {
        if self.ends_same_day() {
            time.nanos() >= self.start.nanos() && time.nanos() < self.end.nanos()
        } else {
            time.nanos() >= self.start.nanos() || time.nanos() < self.end.nanos()
        }
    }

    pub fn effective_weekday(&self, weekday: Weekday, time: TimeOfDay) -> (r: Weekday)
        ensures
            r == segment_weekday(self@, weekday, time@),
    {
        if self.ends_same_day() || time.nanos() >= self.start.nanos() {
            weekday
        } else {
            previous_weekday(weekday)
        }
    }
}

/// What a [`JobTimeWindow`] says.
pub struct WindowView {
    pub timezone: Option<Seq<char>>,
    pub weekdays: Seq<Weekday>,
    pub segments: Seq<(int, int)>,
}

/// Whether a weekday is allowed: no list of weekdays allows them all.
pub open spec fn weekday_allowed(window: WindowView, weekday: Weekday) -> bool {
    window.weekdays.len() == 0 || window.weekdays.contains(weekday)
}

/// Whether a window is open at a local weekday and time of day.
pub open spec fn open_at_local(window: WindowView, weekday: Weekday, time: int) -> bool {
    if window.segments.len() == 0 {
        weekday_allowed(window, weekday)
    } else {
        exists|i: int|
            0 <= i < window.segments.len() && segment_contains(#[trigger] window.segments[i], time)
                && weekday_allowed(window, segment_weekday(window.segments[i], weekday, time))
    }
}

/// The zone in which a window is read.
pub open spec fn window_zone(window: WindowView, fallback: Seq<char>) -> Seq<char> {
    zone::zone_or_view(window.timezone, fallback)
}

/// Whether a window is open at an instant.
pub open spec fn open_at(window: WindowView, instant: int, fallback: Seq<char>) -> bool {
    let own = window_zone(window, fallback);
    open_at_local(
        window,
        time::weekday_of(zone::local_day(own, instant)),
        zone::local_time_of_day(own, instant),
    )
}

/// Weekdays and segments of local days; empty lists allow everything.
#[derive(Debug, PartialEq, Eq)]
pub struct JobTimeWindow {
    pub timezone: Option<Timezone>,
    pub weekdays: Vec<Weekday>,
    pub segments: Vec<TimeWindowSegment>,
}

impl View for JobTimeWindow {
    type V = WindowView;

    open spec fn view(&self) -> WindowView {
        WindowView {
            timezone: zone::zone_view(self.timezone),
            weekdays: self.weekdays@,
            segments: self.segments@.map_values(|segment: TimeWindowSegment| segment@),
        }
    }
}

impl Default for JobTimeWindow {
    fn default() -> (r: Self)
        ensures
            r@.timezone is None,
            r@.weekdays.len() == 0,
            r@.segments.len() == 0,
    {
        JobTimeWindow { timezone: None, weekdays: Vec::new(), segments: Vec::new() }
    }
}

impl Clone for JobTimeWindow {
    fn clone(&self) -> (r: Self)
        ensures
            r@ == self@,
    {
        let timezone = match &self.timezone {
            Some(zone) => Some(zone.clone()),
            None => None,
        };
        let weekdays = self.weekdays.clone();
        let segments = self.segments.clone();
        proof {
            assert(weekdays@ =~= self.weekdays@);
            assert(segments@ =~= self.segments@);
        }
        JobTimeWindow { timezone, weekdays, segments }
    }
}

impl JobTimeWindow {
    /// A window that is always open.
    pub fn new() -> (r: Self)
        ensures
            r@.timezone is None,
            r@.weekdays.len() == 0,
            r@.segments.len() == 0,
    {
        JobTimeWindow { timezone: None, weekdays: Vec::new(), segments: Vec::new() }
    }

    /// Whether the window is open at `now`, read in its own time zone or else
    /// in `fallback_timezone`.
    pub fn matches(&self, now: UtcTime, fallback_timezone: &Timezone) -> (r: bool)
        ensures
            r == open_at(self@, now@, fallback_timezone@),
    {
        let zone = zone_or(&self.timezone, fallback_timezone);
        let local = zone.local(now);
        self.matches_local(time::weekday_of_day(local.0), local.1)
    }

    /// Whether the window is open at a local weekday and time of day.
    pub fn matches_local(&self, weekday: Weekday, time: TimeOfDay) -> (r: bool)
        ensures
            r == open_at_local(self@, weekday, time@),
    {
        if self.segments.len() == 0 {
            return self.allows_weekday(weekday);
        }
        let mut index: usize = 0;
        while index < self.segments.len()
            invariant
                index <= self.segments.len(),
                forall|i: int|
                    0 <= i < index ==> !(segment_contains(#[trigger] self@.segments[i], time@)
                        && weekday_allowed(
                        self@,
                        segment_weekday(self@.segments[i], weekday, time@),
                    )),
            decreases self.segments.len() - index,
        {
            let segment = self.segments[index];
            assert(self@.segments[index as int] == segment@);
            if segment.contains_time(time) && self.allows_weekday(
                segment.effective_weekday(weekday, time),
            ) {
                return true;
            }
            index = index + 1;
        }
        false
    }

    /// Whether the list of weekdays, if there is one, names the weekday.
    pub fn allows_weekday(&self, weekday: Weekday) -> (r: bool)
        ensures
            r == weekday_allowed(self@, weekday),
    {
        if self.weekdays.len() == 0 {
            return true;
        }
        let mut index: usize = 0;
        while index < self.weekdays.len()
            invariant
                index <= self.weekdays.len(),
                forall|i: int| 0 <= i < index ==> #[trigger] self.weekdays@[i] != weekday,
            decreases self.weekdays.len() - index,
        {
            if self.weekdays[index] == weekday {
                return true;
            }
            index = index + 1;
        }
        false
    }
}

/// A window is open by its own clocks, or else by those of the zone that it is
/// handed. Without segments it is open on the days that it allows. With segments
/// it is open from the start of one, on a day that it allows, until before its
/// end, which for a segment past midnight lies on the next day, whichever that
/// is.
pub proof fn law_window_hours(
    window: WindowView,
    instant: int,
    fallback: Seq<char>,
    clocks: Seq<char>,
    local: int,
)
    requires
        window.timezone is None ==> clocks == fallback,
        window.timezone matches Some(own) ==> clocks == own,
        local == instant + zone::zone_offset(clocks, instant / 1_000_000_000) * 1_000_000_000,
    ensures
        ({
            let day = local / 86_400_000_000_000;
            let hour = local % 86_400_000_000_000;
            let today = window.weekdays.len() == 0 || window.weekdays.contains(
                time::weekday_of(day),
            );
            let yesterday = window.weekdays.len() == 0 || window.weekdays.contains(
                time::weekday_of(day - 1),
            );
            &&& window.segments.len() == 0 ==> open_at(window, instant, fallback) == today
            &&& forall|i: int|
                0 <= i < window.segments.len() && today && (#[trigger] window.segments[i]).0 <= hour
                    && (hour < window.segments[i].1 || window.segments[i].1
                    < window.segments[i].0) ==> open_at(window, instant, fallback)
            &&& forall|i: int|
                0 <= i < window.segments.len() && yesterday && hour < (
                #[trigger] window.segments[i]).1 < window.segments[i].0 ==> open_at(
                    window,
                    instant,
                    fallback,
                )
            &&& window.segments.len() > 0 && open_at(window, instant, fallback) ==> exists|i: int|
                0 <= i < window.segments.len() && {
                    let segment = #[trigger] window.segments[i];
                    ||| today && segment.0 <= hour < segment.1
                    ||| today && segment.1 < segment.0 <= hour
                    ||| yesterday && hour < segment.1 < segment.0
                }
        }),
{
    let day = local / 86_400_000_000_000;
    let hour = local % 86_400_000_000_000;
    time::law_weekday_before(day);
    assert(zone::local_day(clocks, instant) == day);
    assert(zone::local_time_of_day(clocks, instant) == hour);
}

} // verus!
