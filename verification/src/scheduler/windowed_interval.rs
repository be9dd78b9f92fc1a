//! Interval schedules whose interval depends on local time windows.
use vstd::prelude::*;
use crate::error::{self, ErrorView, SchedulerError};
use crate::model::schedule::{self, WindowedIntervalSchedule, WindowedView};
use crate::model::time_window;
use crate::scheduler::boundaries::{self, push_window_boundaries};
use crate::scheduler::fixed_clocks;
use crate::time::{self, duration_to_delta, Duration, UtcTime};
use crate::zone::{self, Timezone};

verus! {

/// How often a due time may fall into a period with another interval before
/// the search turns to the next boundary.
pub const MAX_RECOMPUTATIONS: u32 = 32;

/// Whether some interval of the schedule is zero.
pub open spec fn has_zero_interval(windowed: WindowedView) -> bool {
    windowed.default_every == Some(0int) || exists|i: int|
        0 <= i < windowed.windows.len() && (#[trigger] windowed.windows[i]).1 == Some(0int)
}

/// The interval that holds at an instant, looking at the windows from index
/// `from` on: that of the first one that is open, or else the default.
pub open spec fn active_from(
    windowed: WindowedView,
    from: nat,
    instant: int,
    fallback: Seq<char>,
) -> Option<int>
    decreases windowed.windows.len() - from,
{
    if from >= windowed.windows.len() {
        windowed.default_every
    } else if time_window::open_at(windowed.windows[from as int].0, instant, fallback) {
        windowed.windows[from as int].1
    } else {
        active_from(windowed, from + 1, instant, fallback)
    }
}

/// The interval that holds at an instant; `None` is a period without triggers.
pub open spec fn active_interval(
    windowed: WindowedView,
    instant: int,
    fallback: Seq<char>,
) -> Option<int> {
    active_from(windowed, 0, instant, fallback)
}

/// The boundaries of the first `count` windows.
pub open spec fn windows_boundaries(
    windowed: WindowedView,
    base: int,
    fallback: Seq<char>,
    count: nat,
) -> Seq<int>
    decreases count,
{
    if count == 0 {
        Seq::empty()
    } else {
        windows_boundaries(windowed, base, fallback, (count - 1) as nat)
            + boundaries::window_boundaries(windowed.windows[count - 1].0, base, fallback, true)
    }
}

/// The first boundary after an instant at which triggers are enabled.
pub open spec fn next_enabled_start(
    windowed: WindowedView,
    base: int,
    fallback: Seq<char>,
) -> Option<int> {
    boundaries::least(
        windows_boundaries(windowed, base, fallback, windowed.windows.len()),
        |instant: int| instant > base && active_interval(windowed, instant, fallback) is Some,
    )
}

/// The due time that a candidate settles on. A candidate in a period with the
/// interval that led to it is due; in a period with another interval it moves
/// on by that interval, `steps` times at most; in a period without triggers,
/// and after the last step, it moves to the next boundary.
pub open spec fn settled(
    windowed: WindowedView,
    candidate: int,
    every: int,
    fallback: Seq<char>,
    steps: nat,
) -> Result<Option<int>, ErrorView>
    decreases steps,
{
    if steps == 0 {
        Ok(next_enabled_start(windowed, candidate, fallback))
    } else {
        match active_interval(windowed, candidate, fallback) {
            None => Ok(next_enabled_start(windowed, candidate, fallback)),
            Some(next_every) => if next_every == every {
                Ok(Some(candidate))
            } else {
                match moved_by(candidate, next_every) {
                    None => Err(error::interval_out_of_range_error()),
                    Some(next) => settled(
                        windowed,
                        next,
                        next_every,
                        fallback,
                        (steps - 1) as nat,
                    ),
                }
            },
        }
    }
}

/// An instant moved on by a span, unless either leaves its range.
pub open spec fn moved_by(instant: int, span: int) -> Option<int> {
    match time::delta_of(span) {
        Some(delta) => time::checked_shift(instant, delta),
        None => None,
    }
}

/// The due time after an instant.
pub open spec fn windowed_next(
    windowed: WindowedView,
    base: int,
    fallback: Seq<char>,
) -> Result<Option<int>, ErrorView> {
    if has_zero_interval(windowed) {
        Err(error::zero_interval_error())
    } else {
        match active_interval(windowed, base, fallback) {
            None => Ok(next_enabled_start(windowed, base, fallback)),
            Some(every) => match moved_by(base, every) {
                None => Err(error::interval_out_of_range_error()),
                Some(candidate) => settled(
                    windowed,
                    candidate,
                    every,
                    fallback,
                    MAX_RECOMPUTATIONS as nat,
                ),
            },
        }
    }
}

/// The value of an optional instant or the words of an error.
pub open spec fn due_result(
    result: Result<Option<UtcTime>, SchedulerError>,
) -> Result<Option<int>, ErrorView> {
    match result {
        Ok(instant) => Ok(time::instant_view(instant)),
        Err(error) => Err(error@),
    }
}

/// Intervals are not negative.
pub open spec fn spans_valid(windowed: WindowedView) -> bool {
    (windowed.default_every matches Some(every) ==> every >= 0) && forall|i: int|
        0 <= i < windowed.windows.len() ==> ((#[trigger] windowed.windows[i]).1 matches Some(
            every,
        ) ==> every >= 0)
}

proof fn lemma_active_positive(
    windowed: WindowedView,
    from: nat,
    instant: int,
    fallback: Seq<char>,
)
    requires
        spans_valid(windowed),
        !has_zero_interval(windowed),
    ensures
        active_from(windowed, from, instant, fallback) matches Some(every) ==> every > 0,
    decreases windowed.windows.len() - from,
{
    if from < windowed.windows.len() {
        lemma_active_positive(windowed, from + 1, instant, fallback);
        assert(windowed.windows[from as int].1 != Some(0int));
    }
}

/// A boundary at which triggers are enabled lies after the instant that it is
/// searched from.
pub proof fn law_enabled_start_later(windowed: WindowedView, base: int, fallback: Seq<char>)
    ensures
        next_enabled_start(windowed, base, fallback) matches Some(start) ==> base < start
            && active_interval(windowed, start, fallback) is Some,
{
    boundaries::law_least(
        windows_boundaries(windowed, base, fallback, windowed.windows.len()),
        |instant: int| instant > base && active_interval(windowed, instant, fallback) is Some,
    );
}

/// A due time settles no earlier than the candidate, and in a period in which
/// triggers are enabled.
pub proof fn law_settled(
    windowed: WindowedView,
    candidate: int,
    every: int,
    fallback: Seq<char>,
    steps: nat,
)
    requires
        spans_valid(windowed),
        !has_zero_interval(windowed),
    ensures
        settled(windowed, candidate, every, fallback, steps) matches Ok(Some(next)) ==> candidate
            <= next && active_interval(windowed, next, fallback) is Some,
    decreases steps,
{
    law_enabled_start_later(windowed, candidate, fallback);
    if steps > 0 {
        lemma_active_positive(windowed, 0, candidate, fallback);
        match active_interval(windowed, candidate, fallback) {
            None => {},
            Some(next_every) => {
                if next_every != every {
                    match moved_by(candidate, next_every) {
                        None => {},
                        Some(next) => {
                            law_settled(
                                windowed,
                                next,
                                next_every,
                                fallback,
                                (steps - 1) as nat,
                            );
                        },
                    }
                }
            },
        }
    }
}

/// The next due time is later than the one before, and never falls into a
/// period without triggers.
pub proof fn law_windowed_next(windowed: WindowedView, base: int, fallback: Seq<char>)
    requires
        spans_valid(windowed),
    ensures
        windowed_next(windowed, base, fallback) matches Ok(Some(next)) ==> base < next
            && active_interval(windowed, next, fallback) is Some,
{
    if !has_zero_interval(windowed) {
        law_enabled_start_later(windowed, base, fallback);
        lemma_active_positive(windowed, 0, base, fallback);
        match active_interval(windowed, base, fallback) {
            None => {},
            Some(every) => match moved_by(base, every) {
                None => {},
                Some(candidate) => {
                    law_settled(windowed, candidate, every, fallback, MAX_RECOMPUTATIONS as nat);
                },
            },
        }
    }
}

/// Where every period is without triggers, nothing is ever due.
pub proof fn law_all_disabled(windowed: WindowedView, base: int, fallback: Seq<char>)
    requires
        windowed.default_every is None,
        forall|i: int| 0 <= i < windowed.windows.len() ==> (#[trigger] windowed.windows[i]).1 is None,
    ensures
        windowed_next(windowed, base, fallback) == Ok::<Option<int>, ErrorView>(None),
{
    assert forall|instant: int| #[trigger]
        active_interval(windowed, instant, fallback) is None by {
        lemma_active_disabled(windowed, 0, instant, fallback);
    }
    law_enabled_start_later(windowed, base, fallback);
}

proof fn lemma_active_disabled(
    windowed: WindowedView,
    from: nat,
    instant: int,
    fallback: Seq<char>,
)
    requires
        windowed.default_every is None,
        forall|i: int| 0 <= i < windowed.windows.len() ==> (#[trigger] windowed.windows[i]).1 is None,
    ensures
        active_from(windowed, from, instant, fallback) is None,
    decreases windowed.windows.len() - from,
{
    if from < windowed.windows.len() {
        lemma_active_disabled(windowed, from + 1, instant, fallback);
    }
}

/// Whether the windows are read in zones whose clocks are never changed.
pub open spec fn windows_fixed(windowed: WindowedView, fallback: Seq<char>) -> bool {
    forall|i: int|
        0 <= i < windowed.windows.len() ==> zone::has_fixed_clocks(
            time_window::window_zone((#[trigger] windowed.windows[i]).0, fallback),
        ) && fixed_clocks::segments_within_day(windowed.windows[i].0)
}

/// Whether an instant and its local days in the zones of all windows are in the
/// calendar.
pub open spec fn on_calendar(windowed: WindowedView, fallback: Seq<char>, instant: int) -> bool {
    time::in_calendar(instant) && forall|i: int|
        0 <= i < windowed.windows.len() ==> fixed_clocks::on_calendar(
            time_window::window_zone((#[trigger] windowed.windows[i]).0, fallback),
            instant,
        )
}

/// Whether the local days before an instant are in the calendar too.
pub open spec fn has_day_before(windowed: WindowedView, fallback: Seq<char>, instant: int) -> bool {
    forall|i: int|
        0 <= i < windowed.windows.len() ==> zone::day_in_calendar(
            zone::local_day(
                time_window::window_zone((#[trigger] windowed.windows[i]).0, fallback),
                instant,
            ) - 1,
        )
}

/// Where the same windows are open the same interval holds.
proof fn lemma_same_interval(
    windowed: WindowedView,
    from: nat,
    first: int,
    second: int,
    fallback: Seq<char>,
)
    requires
        forall|i: int|
            0 <= i < windowed.windows.len() ==> time_window::open_at(
                (#[trigger] windowed.windows[i]).0,
                first,
                fallback,
            ) == time_window::open_at(windowed.windows[i].0, second, fallback),
    ensures
        active_from(windowed, from, first, fallback) == active_from(
            windowed,
            from,
            second,
            fallback,
        ),
    decreases windowed.windows.len() - from,
{
    if from < windowed.windows.len() {
        lemma_same_interval(windowed, from + 1, first, second, fallback);
    }
}

proof fn lemma_in_windows(
    windowed: WindowedView,
    base: int,
    fallback: Seq<char>,
    count: nat,
    index: int,
    boundary: int,
)
    requires
        0 <= index < count <= windowed.windows.len(),
        boundaries::window_boundaries(windowed.windows[index].0, base, fallback, true).contains(
            boundary,
        ),
    ensures
        windows_boundaries(windowed, base, fallback, count).contains(boundary),
    decreases count,
{
    let front = windows_boundaries(windowed, base, fallback, (count - 1) as nat);
    let last = boundaries::window_boundaries(
        windowed.windows[count - 1].0,
        base,
        fallback,
        true,
    );
    if index == count - 1 {
        let i = last.index_of(boundary);
        assert((front + last)[front.len() + i] == boundary);
    } else {
        lemma_in_windows(windowed, base, fallback, (count - 1) as nat, index, boundary);
        let i = front.index_of(boundary);
        assert((front + last)[i] == boundary);
    }
}

/// Between two boundaries the same interval holds.
proof fn lemma_interval_kept(
    windowed: WindowedView,
    base: int,
    fallback: Seq<char>,
    first: int,
    second: int,
)
    requires
        windows_fixed(windowed, fallback),
        on_calendar(windowed, fallback, base),
        has_day_before(windowed, fallback, base),
        on_calendar(windowed, fallback, second),
        base <= first <= second <= base + 8 * time::NANOS_PER_DAY,
        forall|boundary: int|
            first < boundary <= second ==> !#[trigger] windows_boundaries(
                windowed,
                base,
                fallback,
                windowed.windows.len(),
            ).contains(boundary),
    ensures
        active_interval(windowed, first, fallback) == active_interval(windowed, second, fallback),
{
    assert forall|i: int| 0 <= i < windowed.windows.len() implies time_window::open_at(
        (#[trigger] windowed.windows[i]).0,
        first,
        fallback,
    ) == time_window::open_at(windowed.windows[i].0, second, fallback) by {
        let window = windowed.windows[i].0;
        let own = time_window::window_zone(window, fallback);
        let offset = choose|offset: int| zone::clocks_fixed(own, offset);
        fixed_clocks::law_between_on_calendar(own, offset, base, first, second);
        let opens_first = time_window::open_at(window, first, fallback);
        let opens_second = time_window::open_at(window, second, fallback);
        if !opens_first && opens_second {
            let boundary = fixed_clocks::law_opens_at_boundary(
                window,
                fallback,
                offset,
                base,
                true,
                first,
                second,
            );
            lemma_in_windows(windowed, base, fallback, windowed.windows.len(), i, boundary);
        } else if opens_first && !opens_second {
            let boundary = fixed_clocks::law_closes_at_boundary(
                window,
                fallback,
                offset,
                base,
                first,
                second,
            );
            lemma_in_windows(windowed, base, fallback, windowed.windows.len(), i, boundary);
        }
    }
    lemma_same_interval(windowed, 0, first, second, fallback);
}

/// The last of the values after one instant and up to another, unless there is
/// none.
proof fn lemma_last_between(values: Seq<int>, after: int, until: int) -> (r: Option<int>)
    ensures
        match r {
            Some(last) => {
                &&& values.contains(last)
                &&& after < last <= until
                &&& forall|value: int|
                    last < value <= until ==> !#[trigger] values.contains(value)
            },
            None => forall|value: int|
                after < value <= until ==> !#[trigger] values.contains(value),
        },
    decreases values.len(),
{
    if values.len() == 0 {
        None
    } else {
        let front = values.drop_last();
        let found = lemma_last_between(front, after, until);
        let value = values.last();
        assert forall|other: int| #[trigger] values.contains(other) implies other == value
            || front.contains(other) by {
            let i = values.index_of(other);
            if i < front.len() {
                assert(front[i] == other);
            }
        }
        assert(values[values.len() - 1] == value);
        match found {
            Some(last) => {
                let i = front.index_of(last);
                assert(values[i] == last);
            },
            None => {},
        }
        if after < value <= until && (found matches Some(last) ==> last < value) {
            Some(value)
        } else {
            found
        }
    }
}

/// From a period without triggers, an instant at which triggers are enabled
/// bounds the next boundary at which they are.
proof fn lemma_enabled_bounds(
    windowed: WindowedView,
    base: int,
    fallback: Seq<char>,
    enabled: int,
)
    requires
        windows_fixed(windowed, fallback),
        on_calendar(windowed, fallback, base),
        has_day_before(windowed, fallback, base),
        on_calendar(windowed, fallback, enabled),
        active_interval(windowed, base, fallback) is None,
        base < enabled,
        active_interval(windowed, enabled, fallback) is Some,
    ensures
        next_enabled_start(windowed, base, fallback) matches Some(start) && start <= enabled,
    decreases enabled - base,
{
    if enabled > base + 8 * time::NANOS_PER_DAY {
        let week_before = enabled - 7 * time::NANOS_PER_DAY;
        assert forall|i: int| 0 <= i < windowed.windows.len() implies {
            &&& fixed_clocks::on_calendar(
                time_window::window_zone((#[trigger] windowed.windows[i]).0, fallback),
                week_before,
            )
            &&& time_window::open_at(windowed.windows[i].0, week_before, fallback)
                == time_window::open_at(windowed.windows[i].0, enabled, fallback)
        } by {
            let own = time_window::window_zone(windowed.windows[i].0, fallback);
            let offset = choose|offset: int| zone::clocks_fixed(own, offset);
            fixed_clocks::law_between_on_calendar(own, offset, base, week_before, enabled);
            fixed_clocks::law_weekly(windowed.windows[i].0, fallback, offset, enabled);
        }
        lemma_same_interval(windowed, 0, week_before, enabled, fallback);
        lemma_enabled_bounds(windowed, base, fallback, week_before);
    } else {
        let values = windows_boundaries(windowed, base, fallback, windowed.windows.len());
        let keep = |instant: int|
            instant > base && active_interval(windowed, instant, fallback) is Some;
        boundaries::law_least(values, keep);
        match lemma_last_between(values, base, enabled) {
            Some(last) => {
                lemma_interval_kept(windowed, base, fallback, last, enabled);
                let i = values.index_of(last);
                assert(keep(values[i]));
            },
            None => {
                lemma_interval_kept(windowed, base, fallback, base, enabled);
            },
        }
    }
}

/// In zones whose clocks are never changed, a period without triggers ends where
/// triggers are enabled next: at no instant in between are they, and there is no
/// such start only where they never are again. The first day of the calendar is
/// left out, on which a segment that began before it cannot be known.
pub proof fn law_enabled_start_is_first(windowed: WindowedView, base: int, fallback: Seq<char>)
    requires
        windows_fixed(windowed, fallback),
        on_calendar(windowed, fallback, base),
        has_day_before(windowed, fallback, base),
        active_interval(windowed, base, fallback) is None,
    ensures
        match next_enabled_start(windowed, base, fallback) {
            Some(start) => {
                &&& base < start
                &&& active_interval(windowed, start, fallback) is Some
                &&& forall|between: int|
                    base < between < start && on_calendar(windowed, fallback, between)
                        ==> #[trigger] active_interval(windowed, between, fallback) is None
            },
            None => forall|later: int|
                base < later && on_calendar(windowed, fallback, later)
                    ==> #[trigger] active_interval(windowed, later, fallback) is None,
        },
{
    law_enabled_start_later(windowed, base, fallback);
    let start = next_enabled_start(windowed, base, fallback);
    assert forall|other: int|
        base < other && (start matches Some(next) ==> other < next) && on_calendar(
            windowed,
            fallback,
            other,
        ) implies #[trigger] active_interval(windowed, other, fallback) is None by {
        if active_interval(windowed, other, fallback) is Some {
            lemma_enabled_bounds(windowed, base, fallback, other);
        }
    }
}

/// From a period without triggers the schedule resumes at its end: that start is
/// the next due time, both after an instant in the period and for a due time
/// that would have fallen into it.
pub proof fn law_resumes_at_period_end(
    windowed: WindowedView,
    base: int,
    every: int,
    fallback: Seq<char>,
    steps: nat,
)
    requires
        active_interval(windowed, base, fallback) is None,
        !has_zero_interval(windowed),
    ensures
        windowed_next(windowed, base, fallback) == Ok::<Option<int>, ErrorView>(
            next_enabled_start(windowed, base, fallback),
        ),
        settled(windowed, base, every, fallback, steps) == Ok::<Option<int>, ErrorView>(
            next_enabled_start(windowed, base, fallback),
        ),
{
}

/// Rejects a schedule with an interval of length zero.
pub fn validate(windowed: &WindowedIntervalSchedule) -> (r: Result<(), SchedulerError>)
    ensures
        r is Ok <==> !has_zero_interval(windowed@),
        r matches Err(error) ==> error@ == error::zero_interval_error(),
{
    if is_zero_span(windowed.default_every) {
        return Err(SchedulerError::invalid_zero_interval());
    }
    let mut index: usize = 0;
    while index < windowed.windows.len()
        invariant
            index <= windowed.windows.len(),
            windowed@.default_every != Some(0int),
            forall|i: int| 0 <= i < index ==> (#[trigger] windowed@.windows[i]).1 != Some(0int),
        decreases windowed.windows.len() - index,
    {
        assert(windowed@.windows[index as int] == windowed.windows@[index as int]@);
        if is_zero_span(windowed.windows[index].every) {
            return Err(SchedulerError::invalid_zero_interval());
        }
        index = index + 1;
    }
    Ok(())
}

fn is_zero_span(span: Option<Duration>) -> (r: bool)
    ensures
        r == (schedule::span_view(span) == Some(0int)),
{
    match span {
        Some(every) => every.is_zero(),
        None => false,
    }
}

/// The due time after `base`.
pub fn next_after(
    base: UtcTime,
    windowed: &WindowedIntervalSchedule,
    fallback_timezone: &Timezone,
) -> (r: Result<Option<UtcTime>, SchedulerError>)
    ensures
        due_result(r) == windowed_next(windowed@, base@, fallback_timezone@),
{
    match validate(windowed) {
        Ok(()) => {},
        Err(error) => {
            return Err(error);
        },
    }
    let mut current_every = match active_interval_at(windowed, base, fallback_timezone) {
        Some(every) => every,
        None => {
            return Ok(next_enabled_start_after(windowed, base, fallback_timezone));
        },
    };
    let mut candidate = match advanced_by(base, current_every) {
        Some(instant) => instant,
        None => {
            return Err(SchedulerError::invalid_interval_out_of_range());
        },
    };
    let mut step: u32 = 0;
    let ghost fallback = fallback_timezone@;
    let ghost view = windowed@;
    while step < MAX_RECOMPUTATIONS
        invariant
            step <= MAX_RECOMPUTATIONS,
            fallback == fallback_timezone@,
            view == windowed@,
            windowed_next(view, base@, fallback) == settled(
                view,
                candidate@,
                current_every@,
                fallback,
                (MAX_RECOMPUTATIONS - step) as nat,
            ),
        decreases MAX_RECOMPUTATIONS - step,
    {
        match active_interval_at(windowed, candidate, fallback_timezone) {
            Some(next_every) => {
                if next_every.same_as(&current_every) {
                    return Ok(Some(candidate));
                }
                match advanced_by(candidate, next_every) {
                    Some(instant) => {
                        candidate = instant;
                        current_every = next_every;
                    },
                    None => {
                        return Err(SchedulerError::invalid_interval_out_of_range());
                    },
                }
            },
            None => {
                return Ok(next_enabled_start_after(windowed, candidate, fallback_timezone));
            },
        }
        step = step + 1;
    }
    Ok(next_enabled_start_after(windowed, candidate, fallback_timezone))
}

/// An instant moved on by a span, unless either leaves its range.
pub fn advanced_by(instant: UtcTime, span: Duration) -> (r: Option<UtcTime>)
    ensures
        time::instant_view(r) == moved_by(instant@, span@),
{
    match duration_to_delta(span) {
        Some(delta) => instant.shifted(delta),
        None => None,
    }
}

/// The interval that holds at an instant; `None` is a period without triggers.
pub fn active_interval_at(
    windowed: &WindowedIntervalSchedule,
    instant: UtcTime,
    fallback_timezone: &Timezone,
) -> (r: Option<Duration>)
    ensures
        schedule::span_view(r) == active_interval(windowed@, instant@, fallback_timezone@),
{
    let mut index: usize = 0;
    while index < windowed.windows.len()
        invariant
            index <= windowed.windows.len(),
            active_interval(windowed@, instant@, fallback_timezone@) == active_from(
                windowed@,
                index as nat,
                instant@,
                fallback_timezone@,
            ),
        decreases windowed.windows.len() - index,
    {
        let interval_window = &windowed.windows[index];
        assert(windowed@.windows[index as int] == interval_window@);
        if interval_window.window.matches(instant, fallback_timezone) {
            return interval_window.every;
        }
        index = index + 1;
    }
    windowed.default_every
}

/// The first boundary after `base` at which triggers are enabled.
pub fn next_enabled_start_after(
    windowed: &WindowedIntervalSchedule,
    base: UtcTime,
    fallback_timezone: &Timezone,
) -> (r: Option<UtcTime>)
    ensures
        time::instant_view(r) == next_enabled_start(windowed@, base@, fallback_timezone@),
{
    let candidates = boundary_candidates_after(windowed, base, fallback_timezone);
    earliest_enabled(windowed, &candidates, base, fallback_timezone)
}

/// The earliest candidate after `base` at which triggers are enabled.
pub fn earliest_enabled(
    windowed: &WindowedIntervalSchedule,
    candidates: &Vec<UtcTime>,
    base: UtcTime,
    fallback_timezone: &Timezone,
) -> (r: Option<UtcTime>)
    ensures
        time::instant_view(r) == boundaries::least(
            boundaries::nanos_of(candidates@),
            |instant: int|
                instant > base@ && active_interval(
                    windowed@,
                    instant,
                    fallback_timezone@,
                ) is Some,
        ),
{
    let ghost keep = |instant: int|
        instant > base@ && active_interval(windowed@, instant, fallback_timezone@) is Some;
    let mut best: Option<UtcTime> = None;
    let mut index: usize = 0;
    while index < candidates.len()
        invariant
            index <= candidates.len(),
            keep == (|instant: int|
                instant > base@ && active_interval(
                    windowed@,
                    instant,
                    fallback_timezone@,
                ) is Some),
            time::instant_view(best) == boundaries::least(
                boundaries::nanos_of(candidates@.take(index as int)),
                keep,
            ),
        decreases candidates.len() - index,
    {
        let candidate = candidates[index];
        proof {
            let longer = boundaries::nanos_of(candidates@.take(index + 1));
            assert(longer.drop_last() =~= boundaries::nanos_of(candidates@.take(index as int)));
            assert(longer.last() == candidate@);
        }
        let enabled = base.earlier_than(&candidate) && active_interval_at(
            windowed,
            candidate,
            fallback_timezone,
        ).is_some();
        if enabled {
            match best {
                Some(value) => {
                    if candidate.earlier_than(&value) {
                        best = Some(candidate);
                    }
                },
                None => {
                    best = Some(candidate);
                },
            }
        }
        index = index + 1;
    }
    assert(candidates@.take(index as int) =~= candidates@);
    best
}

/// The boundaries of all windows from the local day before that of `base` on,
/// each in the time zone of its window.
pub fn boundary_candidates_after(
    windowed: &WindowedIntervalSchedule,
    base: UtcTime,
    fallback_timezone: &Timezone,
) -> (r: Vec<UtcTime>)
    ensures
        boundaries::nanos_of(r@) == windows_boundaries(
            windowed@,
            base@,
            fallback_timezone@,
            windowed@.windows.len(),
        ),
{
    let mut candidates: Vec<UtcTime> = Vec::new();
    let mut index: usize = 0;
    assert(boundaries::nanos_of(candidates@) =~= Seq::<int>::empty());
    while index < windowed.windows.len()
        invariant
            index <= windowed.windows.len(),
            boundaries::nanos_of(candidates@) == windows_boundaries(
                windowed@,
                base@,
                fallback_timezone@,
                index as nat,
            ),
        decreases windowed.windows.len() - index,
    {
        assert(windowed@.windows[index as int] == windowed.windows@[index as int]@);
        push_window_boundaries(
            &mut candidates,
            &windowed.windows[index].window,
            base,
            fallback_timezone,
            true,
        );
        index = index + 1;
    }
    candidates
}

/// The first window that is open gives the interval, also where it gives none;
/// where no window is open the default holds.
pub proof fn law_first_open_window_wins(
    windowed: WindowedView,
    instant: int,
    fallback: Seq<char>,
    place: int,
)
    requires
        0 <= place <= windowed.windows.len(),
        forall|i: int|
            0 <= i < place ==> !time_window::open_at(
                (#[trigger] windowed.windows[i]).0,
                instant,
                fallback,
            ),
        place < windowed.windows.len() ==> time_window::open_at(
            windowed.windows[place].0,
            instant,
            fallback,
        ),
    ensures
        place < windowed.windows.len() ==> active_interval(windowed, instant, fallback)
            == windowed.windows[place].1,
        place == windowed.windows.len() ==> active_interval(windowed, instant, fallback)
            == windowed.default_every,
{
    lemma_closed_before(windowed, instant, fallback, place as nat);
}

proof fn lemma_closed_before(
    windowed: WindowedView,
    instant: int,
    fallback: Seq<char>,
    place: nat,
)
    requires
        place <= windowed.windows.len(),
        forall|i: int|
            0 <= i < place ==> !time_window::open_at(
                (#[trigger] windowed.windows[i]).0,
                instant,
                fallback,
            ),
    ensures
        active_interval(windowed, instant, fallback) == active_from(
            windowed,
            place,
            instant,
            fallback,
        ),
    decreases place,
{
    if place > 0 {
        lemma_closed_before(windowed, instant, fallback, (place - 1) as nat);
        assert(!time_window::open_at(windowed.windows[place - 1].0, instant, fallback));
    }
}

/// The interval by which the instant of the given number in a course lies after
/// the one before it, or after `base`.
pub open spec fn hop(base: int, course: Seq<int>, place: int) -> int {
    if place == 0 {
        course[0] - base
    } else {
        course[place] - course[place - 1]
    }
}

/// Whether instants follow each other from `base` by the interval that holds at
/// each: the first one after `base`, and each later one where the interval at
/// the one before it is not the one that led there.
pub open spec fn is_course(
    windowed: WindowedView,
    base: int,
    fallback: Seq<char>,
    course: Seq<int>,
) -> bool {
    &&& course.len() > 0
    &&& forall|i: int|
        0 <= i < course.len() ==> active_interval(
            windowed,
            if i == 0 {
                base
            } else {
                course[i - 1]
            },
            fallback,
        ) == Some(#[trigger] hop(base, course, i))
    &&& forall|i: int, j: int|
        0 <= i && j == i + 1 && j < course.len() ==> #[trigger] hop(base, course, i)
            != #[trigger] hop(base, course, j)
    &&& forall|i: int|
        0 <= i < course.len() ==> #[trigger] hop(base, course, i)
            <= 9_223_372_036_854_775_807_000_000 && time::in_calendar(course[i])
}

proof fn lemma_course_settles(
    windowed: WindowedView,
    base: int,
    fallback: Seq<char>,
    course: Seq<int>,
)
    requires
        is_course(windowed, base, fallback, course),
        !has_zero_interval(windowed),
        course.len() <= 33,
    ensures
        windowed_next(windowed, base, fallback) == settled(
            windowed,
            course.last(),
            hop(base, course, course.len() - 1),
            fallback,
            (33 - course.len()) as nat,
        ),
    decreases course.len(),
{
    let last = course.len() - 1;
    let span = hop(base, course, last);
    assert(time::in_calendar(course[last]));
    if last > 0 {
        let front = course.drop_last();
        assert forall|i: int| 0 <= i < front.len() implies #[trigger] hop(base, front, i) == hop(
            base,
            course,
            i,
        ) && front[i] == course[i] by {}
        assert(is_course(windowed, base, fallback, front)) by {
            assert forall|i: int| 0 <= i < front.len() implies active_interval(
                windowed,
                if i == 0 {
                    base
                } else {
                    front[i - 1]
                },
                fallback,
            ) == Some(#[trigger] hop(base, front, i)) by {
                assert(hop(base, course, i) == hop(base, front, i));
            }
            assert forall|i: int, j: int|
                0 <= i && j == i + 1 && j < front.len() implies #[trigger] hop(base, front, i)
                != #[trigger] hop(base, front, j) by {
                assert(hop(base, course, i) != hop(base, course, j));
            }
        }
        lemma_course_settles(windowed, base, fallback, front);
        assert(hop(base, course, last - 1) != span);
        assert(front.last() == course[last - 1]);
        assert(active_interval(windowed, course[last - 1], fallback) == Some(span));
        assert(course[last - 1] + span == course[last]);
    }
}

/// A due time moves on by the interval of the period that it falls into, be it
/// shorter or longer than the one that led there, until it falls into a period
/// with the interval that led there: then it is due. Where it falls into a period
/// without triggers, or keeps on moving for too long, it is due when triggers are
/// enabled next.
pub proof fn law_course_of_due_time(
    windowed: WindowedView,
    base: int,
    fallback: Seq<char>,
    course: Seq<int>,
)
    requires
        is_course(windowed, base, fallback, course),
        !has_zero_interval(windowed),
        course.len() <= 33,
    ensures
        course.len() <= 32 && active_interval(windowed, course.last(), fallback) == Some(
            hop(base, course, course.len() - 1),
        ) ==> windowed_next(windowed, base, fallback) == Ok::<Option<int>, ErrorView>(
            Some(course.last()),
        ),
        active_interval(windowed, course.last(), fallback) is None || course.len() == 33
            ==> windowed_next(windowed, base, fallback) == Ok::<Option<int>, ErrorView>(
            next_enabled_start(windowed, course.last(), fallback),
        ),
{
    lemma_course_settles(windowed, base, fallback, course);
}

/// In a period of one interval the due time is one interval later.
pub proof fn law_same_period(windowed: WindowedView, base: int, fallback: Seq<char>, every: int)
    requires
        !has_zero_interval(windowed),
        every <= 9_223_372_036_854_775_807_000_000,
        time::in_calendar(base + every),
        active_interval(windowed, base, fallback) == Some(every),
        active_interval(windowed, base + every, fallback) == Some(every),
    ensures
        windowed_next(windowed, base, fallback) == Ok::<Option<int>, ErrorView>(
            Some(base + every),
        ),
{
}

/// A due time that falls into a period of another interval, shorter or longer,
/// and that interval later is still in such a period, is due that interval later.
pub proof fn law_other_period(
    windowed: WindowedView,
    base: int,
    fallback: Seq<char>,
    every: int,
    other: int,
)
    requires
        !has_zero_interval(windowed),
        every <= 9_223_372_036_854_775_807_000_000,
        other <= 9_223_372_036_854_775_807_000_000,
        every != other,
        time::in_calendar(base + every),
        time::in_calendar(base + every + other),
        active_interval(windowed, base, fallback) == Some(every),
        active_interval(windowed, base + every, fallback) == Some(other),
        active_interval(windowed, base + every + other, fallback) == Some(other),
    ensures
        windowed_next(windowed, base, fallback) == Ok::<Option<int>, ErrorView>(
            Some(base + every + other),
        ),
{
    reveal_with_fuel(settled, 3);
}

/// An interval of length zero anywhere makes a schedule invalid, and one that
/// leads out of the calendar, or cannot be added at all, is an error.
pub proof fn law_windowed_errors(
    windowed: WindowedView,
    base: int,
    fallback: Seq<char>,
    place: int,
)
    ensures
        windowed.default_every == Some(0int) ==> windowed_next(windowed, base, fallback) == Err::<
            Option<int>,
            ErrorView,
        >(error::zero_interval_error()),
        0 <= place < windowed.windows.len() && windowed.windows[place].1 == Some(0int)
            ==> windowed_next(windowed, base, fallback) == Err::<Option<int>, ErrorView>(
            error::zero_interval_error(),
        ),
        windowed.default_every != Some(0int) && (forall|i: int|
            0 <= i < windowed.windows.len() ==> (#[trigger] windowed.windows[i]).1 != Some(0int))
            && active_interval(windowed, base, fallback) is Some && (active_interval(
            windowed,
            base,
            fallback,
        )->0 > 9_223_372_036_854_775_807_000_000 || !time::in_calendar(
            base + active_interval(windowed, base, fallback)->0,
        )) ==> windowed_next(windowed, base, fallback) == Err::<Option<int>, ErrorView>(
            error::interval_out_of_range_error(),
        ),
{
}

/// A call from a period of one interval, whose candidate falls into a period of
/// another interval and stays there, gives the candidate moved on by that other
/// interval, be it shorter or longer.
pub proof fn law_call_other_period(
    base: UtcTime,
    windowed: &WindowedIntervalSchedule,
    fallback_timezone: &Timezone,
    r: Result<Option<UtcTime>, SchedulerError>,
    every: int,
    other: int,
)
    requires
        call_ensures(next_after, (base, windowed, fallback_timezone), r),
        !has_zero_interval(windowed@),
        every <= 9_223_372_036_854_775_807_000_000,
        other <= 9_223_372_036_854_775_807_000_000,
        every != other,
        time::in_calendar(base@ + every),
        time::in_calendar(base@ + every + other),
        active_interval(windowed@, base@, fallback_timezone@) == Some(every),
        active_interval(windowed@, base@ + every, fallback_timezone@) == Some(other),
        active_interval(windowed@, base@ + every + other, fallback_timezone@) == Some(other),
    ensures
        r matches Ok(Some(next)) && next@ == base@ + every + other,
{
    law_other_period(windowed@, base@, fallback_timezone@, every, other);
}

/// A call from a period of one interval that goes on gives one interval later.
pub proof fn law_call_same_period(
    base: UtcTime,
    windowed: &WindowedIntervalSchedule,
    fallback_timezone: &Timezone,
    r: Result<Option<UtcTime>, SchedulerError>,
    every: int,
)
    requires
        call_ensures(next_after, (base, windowed, fallback_timezone), r),
        !has_zero_interval(windowed@),
        every <= 9_223_372_036_854_775_807_000_000,
        time::in_calendar(base@ + every),
        active_interval(windowed@, base@, fallback_timezone@) == Some(every),
        active_interval(windowed@, base@ + every, fallback_timezone@) == Some(every),
    ensures
        r matches Ok(Some(next)) && next@ == base@ + every,
{
    law_same_period(windowed@, base@, fallback_timezone@, every);
}

/// A call from a period without triggers gives where triggers are enabled next.
pub proof fn law_call_disabled_period(
    base: UtcTime,
    windowed: &WindowedIntervalSchedule,
    fallback_timezone: &Timezone,
    r: Result<Option<UtcTime>, SchedulerError>,
)
    requires
        call_ensures(next_after, (base, windowed, fallback_timezone), r),
        !has_zero_interval(windowed@),
        active_interval(windowed@, base@, fallback_timezone@) is None,
        windows_fixed(windowed@, fallback_timezone@),
        on_calendar(windowed@, fallback_timezone@, base@),
        has_day_before(windowed@, fallback_timezone@, base@),
    ensures
        r is Ok,
        r matches Ok(Some(next)) ==> {
            &&& base@ < next@
            &&& active_interval(windowed@, next@, fallback_timezone@) is Some
            &&& forall|between: int|
                base@ < between < next@ && on_calendar(
                    windowed@,
                    fallback_timezone@,
                    between,
                ) ==> #[trigger] active_interval(windowed@, between, fallback_timezone@) is None
        },
        r matches Ok(None) ==> forall|later: int|
            base@ < later && on_calendar(windowed@, fallback_timezone@, later)
                ==> #[trigger] active_interval(windowed@, later, fallback_timezone@) is None,
{
    law_enabled_start_is_first(windowed@, base@, fallback_timezone@);
}

proof fn lemma_window_is_searched(
    windowed: WindowedView,
    base: int,
    fallback: Seq<char>,
    count: nat,
    index: int,
    t: int,
)
    requires
        0 <= index < count,
        boundaries::window_boundaries(windowed.windows[index].0, base, fallback, true).contains(t),
    ensures
        windows_boundaries(windowed, base, fallback, count).contains(t),
    decreases count,
{
    let front = windows_boundaries(windowed, base, fallback, (count - 1) as nat);
    let back = boundaries::window_boundaries(windowed.windows[count - 1].0, base, fallback, true);
    if index < count - 1 {
        lemma_window_is_searched(windowed, base, fallback, (count - 1) as nat, index, t);
        let i = choose|i: int| 0 <= i < front.len() && front[i] == t;
        assert((front + back)[i] == t);
    } else {
        let i = choose|i: int| 0 <= i < back.len() && back[i] == t;
        assert((front + back)[front.len() + i] == t);
    }
}

/// Whatever the clocks of the windows do, a call from a period without triggers
/// goes no further than to any instant of the nine days from its own on, or of
/// the day before, at which one of the windows may open or close and triggers are
/// enabled.
pub proof fn law_call_enabled_no_later(
    base: UtcTime,
    windowed: &WindowedIntervalSchedule,
    fallback_timezone: &Timezone,
    r: Result<Option<UtcTime>, SchedulerError>,
    index: int,
    own: Seq<char>,
    day: int,
    place: int,
    enabled: int,
)
    requires
        call_ensures(next_after, (base, windowed, fallback_timezone), r),
        !has_zero_interval(windowed@),
        active_interval(windowed@, base@, fallback_timezone@) is None,
        0 <= index < windowed@.windows.len(),
        own == (match windowed@.windows[index].0.timezone {
            Some(zone) => zone,
            None => fallback_timezone@,
        }),
        zone::local_day(own, base@) - 1 <= day < zone::local_day(own, base@) + 9,
        time::MIN_DAY <= day <= time::MAX_DAY,
        boundaries::may_change_at(windowed@.windows[index].0, own, day, place, true, enabled),
        base@ < enabled,
        active_interval(windowed@, enabled, fallback_timezone@) is Some,
    ensures
        r matches Ok(Some(next)) && base@ < next@ <= enabled && active_interval(
            windowed@,
            next@,
            fallback_timezone@,
        ) is Some,
{
    boundaries::law_no_boundary_missed(
        windowed@.windows[index].0,
        base@,
        fallback_timezone@,
        true,
        own,
        day,
        place,
        enabled,
    );
    lemma_window_is_searched(
        windowed@,
        base@,
        fallback_timezone@,
        windowed@.windows.len(),
        index,
        enabled,
    );
    let all = windows_boundaries(
        windowed@,
        base@,
        fallback_timezone@,
        windowed@.windows.len(),
    );
    let keep = |instant: int|
        instant > base@ && active_interval(windowed@, instant, fallback_timezone@) is Some;
    boundaries::law_least(all, keep);
    let i = choose|i: int| 0 <= i < all.len() && all[i] == enabled;
    assert(keep(all[i]));
}

} // verus!
