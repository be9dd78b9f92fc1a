//! Moving due times into the window of a job.
use vstd::prelude::*;
use crate::model::schedule::TimeWindowAlignment;
use crate::model::time_window::{self, JobTimeWindow, WindowView};
use crate::scheduler::boundaries::{self, push_window_boundaries};
use crate::scheduler::fixed_clocks;
use crate::time::{self, UtcTime};
use crate::zone::{self, Timezone};

verus! {

/// The first boundary at or after an instant at which a window is open.
pub open spec fn next_open_start(window: WindowView, base: int, fallback: Seq<char>) -> Option<int> {
    boundaries::least(
        seq![base] + boundaries::window_boundaries(window, base, fallback, false),
        |instant: int| instant >= base && time_window::open_at(window, instant, fallback),
    )
}

/// A due time moved into a window: unchanged where alignment is off, where
/// there is no window and where the window is open, and otherwise the next
/// boundary at which it is open.
pub open spec fn aligned(
    candidate: Option<int>,
    alignment: TimeWindowAlignment,
    window: Option<WindowView>,
    fallback: Seq<char>,
) -> Option<int> {
    match candidate {
        None => None,
        Some(instant) => if alignment == TimeWindowAlignment::Disabled {
            Some(instant)
        } else {
            match window {
                None => Some(instant),
                Some(view) => if time_window::open_at(view, instant, fallback) {
                    Some(instant)
                } else {
                    next_open_start(view, instant, fallback)
                },
            }
        },
    }
}

/// An aligned due time is never earlier than the due time it came from, and
/// the window is open at it.
pub proof fn law_aligned_opens(instant: int, window: WindowView, fallback: Seq<char>)
    ensures
        aligned(
            Some(instant),
            TimeWindowAlignment::AlignToNextWindow,
            Some(window),
            fallback,
        ) matches Some(moved) ==> instant <= moved && time_window::open_at(window, moved, fallback),
        time_window::open_at(window, instant, fallback) ==> aligned(
            Some(instant),
            TimeWindowAlignment::AlignToNextWindow,
            Some(window),
            fallback,
        ) == Some(instant),
{
    boundaries::law_least(
        seq![instant] + boundaries::window_boundaries(window, instant, fallback, false),
        |moved: int| moved >= instant && time_window::open_at(window, moved, fallback),
    );
}

/// No boundary of the window between a due time and the aligned due time is
/// one at which the window is open.
pub proof fn law_aligned_is_earliest(
    instant: int,
    window: WindowView,
    fallback: Seq<char>,
    boundary: int,
)
    requires
        boundaries::window_boundaries(window, instant, fallback, false).contains(boundary),
        instant <= boundary,
        time_window::open_at(window, boundary, fallback),
    ensures
        aligned(
            Some(instant),
            TimeWindowAlignment::AlignToNextWindow,
            Some(window),
            fallback,
        ) matches Some(moved) && moved <= boundary,
{
    let days = boundaries::window_boundaries(window, instant, fallback, false);
    let values = seq![instant] + days;
    boundaries::law_least(
        values,
        |moved: int| moved >= instant && time_window::open_at(window, moved, fallback),
    );
    let i = choose|i: int| 0 <= i < days.len() && days[i] == boundary;
    assert(values[i + 1] == boundary);
}

/// An instant at which a window is open bounds the aligned due time.
proof fn lemma_aligned_bounded(
    instant: int,
    window: WindowView,
    fallback: Seq<char>,
    offset: int,
    open: int,
)
    requires
        zone::clocks_fixed(time_window::window_zone(window, fallback), offset),
        fixed_clocks::segments_within_day(window),
        fixed_clocks::on_calendar(time_window::window_zone(window, fallback), instant),
        fixed_clocks::on_calendar(time_window::window_zone(window, fallback), open),
        instant <= open,
        time_window::open_at(window, open, fallback),
    ensures
        aligned(
            Some(instant),
            TimeWindowAlignment::AlignToNextWindow,
            Some(window),
            fallback,
        ) matches Some(moved) && moved <= open,
    decreases open - instant,
{
    let own = time_window::window_zone(window, fallback);
    if !time_window::open_at(window, instant, fallback) {
        if open > instant + 8 * time::NANOS_PER_DAY {
            let week_before = open - 7 * time::NANOS_PER_DAY;
            fixed_clocks::law_between_on_calendar(own, offset, instant, week_before, open);
            fixed_clocks::law_weekly(window, fallback, offset, open);
            lemma_aligned_bounded(instant, window, fallback, offset, week_before);
        } else {
            fixed_clocks::law_between_on_calendar(own, offset, instant, open, open);
            let boundary = fixed_clocks::law_opens_at_boundary(
                window,
                fallback,
                offset,
                instant,
                false,
                instant,
                open,
            );
            law_aligned_is_earliest(instant, window, fallback, boundary);
        }
    }
}

/// In a zone whose clocks are never changed, an aligned due time is the least
/// instant from the due time on at which the window is open; there is none only
/// where the window never opens again. So aligning twice is aligning once.
pub proof fn law_aligned_is_least(instant: int, window: WindowView, fallback: Seq<char>)
    requires
        zone::has_fixed_clocks(time_window::window_zone(window, fallback)),
        fixed_clocks::segments_within_day(window),
        fixed_clocks::on_calendar(time_window::window_zone(window, fallback), instant),
    ensures
        match aligned(
            Some(instant),
            TimeWindowAlignment::AlignToNextWindow,
            Some(window),
            fallback,
        ) {
            Some(moved) => {
                &&& instant <= moved
                &&& time_window::open_at(window, moved, fallback)
                &&& moved == instant <==> time_window::open_at(window, instant, fallback)
                &&& forall|other: int|
                    instant <= other < moved && fixed_clocks::on_calendar(
                        time_window::window_zone(window, fallback),
                        other,
                    ) ==> !#[trigger] time_window::open_at(window, other, fallback)
                &&& aligned(
                    Some(moved),
                    TimeWindowAlignment::AlignToNextWindow,
                    Some(window),
                    fallback,
                ) == Some(moved)
            },
            None => forall|other: int|
                instant <= other && fixed_clocks::on_calendar(
                    time_window::window_zone(window, fallback),
                    other,
                ) ==> !#[trigger] time_window::open_at(window, other, fallback),
        },
{
    let own = time_window::window_zone(window, fallback);
    let offset = choose|offset: int| zone::clocks_fixed(own, offset);
    law_aligned_opens(instant, window, fallback);
    let result = aligned(
        Some(instant),
        TimeWindowAlignment::AlignToNextWindow,
        Some(window),
        fallback,
    );
    assert forall|other: int|
        instant <= other && (result matches Some(moved) ==> other < moved)
            && fixed_clocks::on_calendar(own, other) implies !#[trigger] time_window::open_at(
        window,
        other,
        fallback,
    ) by {
        if time_window::open_at(window, other, fallback) {
            lemma_aligned_bounded(instant, window, fallback, offset, other);
        }
    }
}

/// Moves a due time into a window: unchanged where alignment is off, where
/// there is no window and where the window is open, and otherwise the next
/// boundary at which it is open.
pub fn align_to_window(
    candidate: Option<UtcTime>,
    alignment: TimeWindowAlignment,
    window: Option<&JobTimeWindow>,
    fallback_timezone: &Timezone,
) -> (r: Option<UtcTime>)
    ensures
        time::instant_view(r) == aligned(
            time::instant_view(candidate),
            alignment,
            match window {
                Some(view) => Some(view@),
                None => None,
            },
            fallback_timezone@,
        ),
{
    let instant = match candidate {
        Some(value) => value,
        None => {
            return None;
        },
    };
    if alignment == TimeWindowAlignment::Disabled {
        return Some(instant);
    }
    match window {
        None => Some(instant),
        Some(own) => {
            if own.matches(instant, fallback_timezone) {
                Some(instant)
            } else {
                next_matching_start_at_or_after(own, instant, fallback_timezone)
            }
        },
    }
}

/// The first boundary at or after `base` at which the window is open.
pub fn next_matching_start_at_or_after(
    window: &JobTimeWindow,
    base: UtcTime,
    fallback_timezone: &Timezone,
) -> (r: Option<UtcTime>)
    ensures
        time::instant_view(r) == next_open_start(window@, base@, fallback_timezone@),
{
    let candidates = boundary_candidates_at_or_after(window, base, fallback_timezone);
    earliest_open(window, &candidates, base, fallback_timezone)
}

/// The earliest candidate at or after `base` at which the window is open.
pub fn earliest_open(
    window: &JobTimeWindow,
    candidates: &Vec<UtcTime>,
    base: UtcTime,
    fallback_timezone: &Timezone,
) -> (r: Option<UtcTime>)
    ensures
        time::instant_view(r) == boundaries::least(
            boundaries::nanos_of(candidates@),
            |instant: int|
                instant >= base@ && time_window::open_at(window@, instant, fallback_timezone@),
        ),
{
    let ghost keep = |instant: int|
        instant >= base@ && time_window::open_at(window@, instant, fallback_timezone@);
    let mut best: Option<UtcTime> = None;
    let mut index: usize = 0;
    while index < candidates.len()
        invariant
            index <= candidates.len(),
            keep == (|instant: int|
                instant >= base@ && time_window::open_at(window@, instant, fallback_timezone@)),
            time::instant_view(best) == boundaries::least(
                boundaries::nanos_of(candidates@.take(index as int)),
                keep,
            ),
        decreases candidates.len() - index,
    {
        let candidate = candidates[index];
        proof {
            let longer = boundaries::nanos_of(candidates@.take(index + 1));
            assert(longer.drop_last() =~= boundaries::nanos_of(candidates@.take(index as int)));
            assert(longer.last() == candidate@);
        }
        let open = base.at_or_before(&candidate) && window.matches(candidate, fallback_timezone);
        if open {
            match best {
                Some(value) => {
                    if candidate.earlier_than(&value) {
                        best = Some(candidate);
                    }
                },
                None => {
                    best = Some(candidate);
                },
            }
        }
        index = index + 1;
    }
    assert(candidates@.take(index as int) =~= candidates@);
    best
}

/// `base`, and the boundaries of the window on its local day and the days
/// after it.
pub fn boundary_candidates_at_or_after(
    window: &JobTimeWindow,
    base: UtcTime,
    fallback_timezone: &Timezone,
) -> (r: Vec<UtcTime>)
    ensures
        boundaries::nanos_of(r@) == seq![base@] + boundaries::window_boundaries(
            window@,
            base@,
            fallback_timezone@,
            false,
        ),
{
    let mut candidates: Vec<UtcTime> = Vec::new();
    candidates.push(base);
    assert(boundaries::nanos_of(candidates@) =~= seq![base@]);
    push_window_boundaries(&mut candidates, window, base, fallback_timezone, false);
    candidates
}

/// A call leaves a due time alone where alignment is off, where there is no window
/// and where the window is open, and never makes one up.
pub proof fn law_call_leaves_alone(
    candidate: Option<UtcTime>,
    alignment: TimeWindowAlignment,
    window: Option<&JobTimeWindow>,
    fallback_timezone: &Timezone,
    r: Option<UtcTime>,
)
    requires
        call_ensures(align_to_window, (candidate, alignment, window, fallback_timezone), r),
    ensures
        candidate is None ==> r is None,
        candidate is Some && (alignment == TimeWindowAlignment::Disabled || window is None
            || time_window::open_at(window->0@, candidate->0@, fallback_timezone@)) ==> r is Some
            && r->0@ == candidate->0@,
{
}

/// A call moves a due time outside its window to the least instant from then on at
/// which the window is open, where the clocks of the window are never changed, and
/// gives none only where it never opens again.
pub proof fn law_call_moves_into_window(
    candidate: UtcTime,
    window: &JobTimeWindow,
    fallback_timezone: &Timezone,
    r: Option<UtcTime>,
)
    requires
        call_ensures(
            align_to_window,
            (
                Some(candidate),
                TimeWindowAlignment::AlignToNextWindow,
                Some(window),
                fallback_timezone,
            ),
            r,
        ),
        zone::has_fixed_clocks(time_window::window_zone(window@, fallback_timezone@)),
        fixed_clocks::segments_within_day(window@),
        fixed_clocks::on_calendar(
            time_window::window_zone(window@, fallback_timezone@),
            candidate@,
        ),
    ensures
        r matches Some(moved) ==> {
            &&& candidate@ <= moved@
            &&& time_window::open_at(window@, moved@, fallback_timezone@)
            &&& forall|other: int|
                candidate@ <= other < moved@ && fixed_clocks::on_calendar(
                    time_window::window_zone(window@, fallback_timezone@),
                    other,
                ) ==> !#[trigger] time_window::open_at(window@, other, fallback_timezone@)
        },
        r is None ==> forall|other: int|
            candidate@ <= other && fixed_clocks::on_calendar(
                time_window::window_zone(window@, fallback_timezone@),
                other,
            ) ==> !#[trigger] time_window::open_at(window@, other, fallback_timezone@),
{
    law_aligned_is_least(candidate@, window@, fallback_timezone@);
}

/// Whatever the clocks of a window do, a call moves a due time no further than to
/// any instant of the nine days from its own on at which the window may open and
/// is open.
pub proof fn law_call_opens_no_later(
    candidate: UtcTime,
    window: &JobTimeWindow,
    fallback_timezone: &Timezone,
    r: Option<UtcTime>,
    own: Seq<char>,
    day: int,
    place: int,
    open: int,
)
    requires
        call_ensures(
            align_to_window,
            (
                Some(candidate),
                TimeWindowAlignment::AlignToNextWindow,
                Some(window),
                fallback_timezone,
            ),
            r,
        ),
        own == (match window@.timezone {
            Some(zone) => zone,
            None => fallback_timezone@,
        }),
        zone::local_day(own, candidate@) <= day < zone::local_day(own, candidate@) + 9,
        time::MIN_DAY <= day <= time::MAX_DAY,
        boundaries::may_change_at(window@, own, day, place, false, open),
        candidate@ <= open,
        time_window::open_at(window@, open, fallback_timezone@),
    ensures
        r is Some,
        candidate@ <= r->0@ <= open,
        time_window::open_at(window@, r->0@, fallback_timezone@),
{
    boundaries::law_no_boundary_missed(
        window@,
        candidate@,
        fallback_timezone@,
        false,
        own,
        day,
        place,
        open,
    );
    law_aligned_opens(candidate@, window@, fallback_timezone@);
    law_aligned_is_earliest(candidate@, window@, fallback_timezone@, open);
}

} // verus!
