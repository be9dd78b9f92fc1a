//! Cron schedules of a group whose members are spread over a span after each
//! occurrence. An occurrence of the expression is called an anchor.
use vstd::prelude::*;
use crate::error::{self, ErrorView, InvalidJobKind, SchedulerError};
use crate::model::cron_schedule::{self, CronSchedule};
use crate::model::schedule::{GroupedCronSchedule, GroupedCronView};
use crate::scheduler::interval_phase;
use crate::scheduler::windowed_interval;
use crate::time::{self, duration_to_delta, Duration, UtcTime, MAX_SPAN_NANOS, NANOS_PER_SEC};
use crate::zone::Timezone;

verus! {

/// How many slots the seed of a group turns its members by.
pub open spec fn rotation(grouped: GroupedCronView) -> int {
    match grouped.group_seed {
        Some(seed) => interval_phase::seed_hash(seed) % grouped.group_size as int,
        None => 0,
    }
}

/// The slot of a member.
pub open spec fn slot_index(grouped: GroupedCronView) -> int {
    (grouped.member_index + rotation(grouped)) % grouped.group_size as int
}

/// How long after an anchor the slot of a member lies, in nanoseconds.
pub open spec fn slot_nanos(grouped: GroupedCronView) -> int {
    grouped.spread * slot_index(grouped) / grouped.group_size as int
}

/// The instant that lies a slot after (or before, for `sign` -1) an instant.
pub open spec fn shifted_by_slot(
    instant: int,
    grouped: GroupedCronView,
    sign: int,
) -> Result<int, ErrorView> {
    match time::delta_of(slot_nanos(grouped)) {
        None => Err(error::interval_out_of_range_error()),
        Some(delta) => match time::checked_shift(instant, sign * delta) {
            None => Err(error::interval_out_of_range_error()),
            Some(shifted) => Ok(shifted),
        },
    }
}

/// The due time of a member after an anchor.
pub open spec fn due_at(anchor: int, grouped: GroupedCronView) -> Result<int, ErrorView> {
    shifted_by_slot(anchor, grouped, 1)
}

/// The anchor of a due time of a member.
pub open spec fn anchor_of(scheduled_at: int, grouped: GroupedCronView) -> Result<int, ErrorView> {
    shifted_by_slot(scheduled_at, grouped, -1)
}

/// What is wrong with the span of a group at an anchor: it has to end before
/// the next one.
pub open spec fn anchor_gap_error(
    grouped: GroupedCronView,
    zone: Seq<char>,
    anchor: int,
) -> Option<ErrorView> {
    match cron_schedule::cron_next_after(grouped.cron, anchor, zone) {
        None => Some(error::other_job_error("grouped cron could not compute anchor gap"@)),
        Some(next_anchor) => match time::delta_of(grouped.spread) {
            None => Some(error::interval_out_of_range_error()),
            Some(spread) => if spread >= next_anchor - anchor {
                Some(
                    error::other_job_error(
                        "grouped cron spread must be smaller than the next cron anchor gap"@,
                    ),
                )
            } else {
                None
            },
        },
    }
}

/// The anchor after an instant, with a gap after it that holds the span.
pub open spec fn checked_anchor_after(
    grouped: GroupedCronView,
    zone: Seq<char>,
    instant: int,
) -> Result<int, ErrorView> {
    match cron_schedule::cron_next_after(grouped.cron, instant, zone) {
        None => Err(error::other_job_error("grouped cron could not compute next anchor"@)),
        Some(anchor) => match anchor_gap_error(grouped, zone, anchor) {
            Some(error) => Err(error),
            None => Ok(anchor),
        },
    }
}

/// What is wrong with a grouped cron schedule around an instant; `None` is a
/// valid one.
pub open spec fn grouped_cron_error(
    grouped: GroupedCronView,
    zone: Seq<char>,
    reference: int,
) -> Option<ErrorView> {
    if grouped.spread == 0 {
        Some(error::other_job_error("grouped cron spread must be greater than zero"@))
    } else if grouped.group_size == 0 {
        Some(error::other_job_error("grouped cron group_size must be greater than zero"@))
    } else if grouped.member_index >= grouped.group_size {
        Some(error::other_job_error("grouped cron member_index must be less than group_size"@))
    } else {
        match checked_anchor_after(grouped, zone, reference) {
            Ok(_) => None,
            Err(error) => Some(error),
        }
    }
}

/// The first anchor at or after `lower`, where it is after `lower` and not
/// after `upper`.
pub open spec fn anchor_within(
    lower: int,
    upper: int,
    cron: Seq<char>,
    zone: Seq<char>,
) -> Result<Option<int>, ErrorView> {
    match time::checked_shift(lower, -1) {
        None => Err(error::interval_out_of_range_error()),
        Some(start) => match cron_schedule::cron_next_after(cron, start, zone) {
            None => Ok(None),
            Some(anchor) => if lower < anchor <= upper {
                Ok(Some(anchor))
            } else {
                Ok(None)
            },
        },
    }
}

/// The first anchor of the span that ends at `now`.
pub open spec fn current_anchor(
    now: int,
    grouped: GroupedCronView,
    zone: Seq<char>,
) -> Result<Option<int>, ErrorView> {
    match time::delta_of(grouped.spread) {
        None => Err(error::interval_out_of_range_error()),
        Some(spread) => match time::checked_shift(now, -spread) {
            None => Err(error::interval_out_of_range_error()),
            Some(lower) => anchor_within(lower, now, grouped.cron, zone),
        },
    }
}

/// The due time of a member after the next anchor.
pub open spec fn due_after_next_anchor(
    instant: int,
    grouped: GroupedCronView,
    zone: Seq<char>,
) -> Result<int, ErrorView> {
    match checked_anchor_after(grouped, zone, instant) {
        Err(error) => Err(error),
        Ok(anchor) => due_at(anchor, grouped),
    }
}

/// The first due time of a member: in the span that is under way, if it is
/// still to come there, and otherwise after the next anchor.
pub open spec fn grouped_cron_initial(
    now: int,
    grouped: GroupedCronView,
    zone: Seq<char>,
) -> Result<int, ErrorView> {
    match grouped_cron_error(grouped, zone, now) {
        Some(error) => Err(error),
        None => match current_anchor(now, grouped, zone) {
            Err(error) => Err(error),
            Ok(None) => due_after_next_anchor(now, grouped, zone),
            Ok(Some(anchor)) => match due_at(anchor, grouped) {
                Err(error) => Err(error),
                Ok(due) => if due > now {
                    Ok(due)
                } else {
                    due_after_next_anchor(now, grouped, zone)
                },
            },
        },
    }
}

/// The due time of a member after one of its due times: in the same slot after
/// the next anchor.
pub open spec fn grouped_cron_next(
    scheduled_at: int,
    grouped: GroupedCronView,
    zone: Seq<char>,
) -> Result<Option<int>, ErrorView> {
    match grouped_cron_error(grouped, zone, scheduled_at) {
        Some(error) => Err(error),
        None => match anchor_of(scheduled_at, grouped) {
            Err(error) => Err(error),
            Ok(anchor) => match anchor_gap_error(grouped, zone, anchor) {
                Some(error) => Err(error),
                None => match due_after_next_anchor(anchor, grouped, zone) {
                    Err(error) => Err(error),
                    Ok(due) => Ok(Some(due)),
                },
            },
        },
    }
}

proof fn lemma_slot_bounds(grouped: GroupedCronView)
    requires
        grouped.group_size > 0,
        grouped.spread >= 0,
    ensures
        0 <= slot_index(grouped) < grouped.group_size,
        0 <= slot_nanos(grouped) <= grouped.spread,
        grouped.spread > 0 ==> slot_nanos(grouped) < grouped.spread,
{
    let size = grouped.group_size as int;
    let slot = slot_index(grouped);
    vstd::arithmetic::div_mod::lemma_mod_bound(grouped.member_index + rotation(grouped), size);
    vstd::arithmetic::div_mod::lemma_fundamental_div_mod(grouped.spread * slot, size);
    assert(0 <= grouped.spread * slot <= grouped.spread * size) by (nonlinear_arith)
        requires
            0 <= slot < size,
            grouped.spread >= 0,
    ;
    assert(grouped.spread > 0 ==> grouped.spread * slot < grouped.spread * size)
        by (nonlinear_arith)
        requires
            0 <= slot < size,
    ;
    assert(0 <= grouped.spread * slot / size <= grouped.spread) by (nonlinear_arith)
        requires
            size > 0,
            0 <= grouped.spread * slot <= grouped.spread * size,
    ;
    assert(grouped.spread * slot < grouped.spread * size ==> grouped.spread * slot / size
        < grouped.spread) by (nonlinear_arith)
        requires
            size > 0,
    ;
}

/// Every due time lies inside the span after its anchor.
pub proof fn law_due_inside_spread(anchor: int, grouped: GroupedCronView)
    requires
        grouped.spread > 0,
        grouped.group_size > 0,
    ensures
        due_at(anchor, grouped) matches Ok(due) ==> anchor <= due < anchor + grouped.spread,
{
    lemma_slot_bounds(grouped);
}

/// The anchor of a due time is the anchor that it was computed from.
pub proof fn law_anchor_of_due(anchor: int, grouped: GroupedCronView)
    requires
        time::in_calendar(anchor),
    ensures
        due_at(anchor, grouped) matches Ok(due) ==> anchor_of(due, grouped) == Ok::<int, ErrorView>(
            anchor,
        ),
{
}

/// The members of a group have the slots of the group among themselves: no two
/// members share one, and a seed only turns them around.
pub proof fn law_slots_distinct(grouped: GroupedCronView, other_index: nat)
    requires
        grouped.member_index < grouped.group_size,
        other_index < grouped.group_size,
        other_index != grouped.member_index,
    ensures
        slot_index(grouped) != slot_index(GroupedCronView { member_index: other_index, ..grouped }),
{
    let size = grouped.group_size as int;
    let other = GroupedCronView { member_index: other_index, ..grouped };
    let turn = rotation(grouped);
    let a = grouped.member_index + turn;
    let b = other_index + turn;
    if a % size == b % size {
        vstd::arithmetic::div_mod::lemma_sub_mod_noop(a, b, size);
        vstd::arithmetic::div_mod::lemma_small_mod(0, size as nat);
        if a > b {
            vstd::arithmetic::div_mod::lemma_small_mod((a - b) as nat, size as nat);
        } else {
            vstd::arithmetic::div_mod::lemma_sub_mod_noop(b, a, size);
            vstd::arithmetic::div_mod::lemma_small_mod((b - a) as nat, size as nat);
        }
    }
}

/// The first due time of a member that is found in the span under way is still
/// to come.
pub proof fn law_current_due_is_future(now: int, grouped: GroupedCronView, zone: Seq<char>)
    ensures
        grouped_cron_initial(now, grouped, zone) matches Ok(due) ==> due > now || due_after_next_anchor(
            now,
            grouped,
            zone,
        ) == Ok::<int, ErrorView>(due),
{
}

fn instant_or_out_of_range(instant: Option<UtcTime>) -> (r: Result<UtcTime, SchedulerError>)
    ensures
        match instant {
            Some(value) => r == Ok::<UtcTime, SchedulerError>(value),
            None => r matches Err(error) && error@ == error::interval_out_of_range_error(),
        },
{
    match instant {
        Some(value) => Ok(value),
        None => Err(SchedulerError::invalid_interval_out_of_range()),
    }
}

/// The first due time of a member at or after `now`.
pub fn initial_next_run_at(
    now: UtcTime,
    grouped: &GroupedCronSchedule,
    timezone: &Timezone,
) -> (r: Result<UtcTime, SchedulerError>)
    ensures
        interval_phase::instant_result(r) == grouped_cron_initial(now@, grouped@, timezone@),
{
    match validate(grouped, timezone, now) {
        Ok(()) => {},
        Err(error) => {
            return Err(error);
        },
    }
    let spread: i128 = match duration_or_out_of_range(grouped.spread) {
        Ok(delta) => delta,
        Err(error) => {
            return Err(error);
        },
    };
    let lower = match instant_or_out_of_range(now.shifted(-spread)) {
        Ok(instant) => instant,
        Err(error) => {
            return Err(error);
        },
    };
    match anchor_in_window(lower, now, &grouped.cron, timezone) {
        Err(error) => {
            return Err(error);
        },
        Ok(None) => {},
        Ok(Some(anchor)) => match due_at_anchor(anchor, grouped) {
            Err(error) => {
                return Err(error);
            },
            Ok(due) => {
                if now.earlier_than(&due) {
                    return Ok(due);
                }
            },
        },
    }
    match next_checked_anchor(grouped, timezone, now) {
        Err(error) => Err(error),
        Ok(anchor) => due_at_anchor(anchor, grouped),
    }
}

/// The due time of a member after one of its due times.
pub fn next_after(
    scheduled_at: UtcTime,
    grouped: &GroupedCronSchedule,
    timezone: &Timezone,
) -> (r: Result<Option<UtcTime>, SchedulerError>)
    ensures
        windowed_interval::due_result(r) == grouped_cron_next(scheduled_at@, grouped@, timezone@),
{
    match validate(grouped, timezone, scheduled_at) {
        Ok(()) => {},
        Err(error) => {
            return Err(error);
        },
    }
    let anchor = match anchor_from_scheduled_at(scheduled_at, grouped) {
        Ok(anchor) => anchor,
        Err(error) => {
            return Err(error);
        },
    };
    match validate_anchor_gap(grouped, timezone, anchor) {
        Ok(()) => {},
        Err(error) => {
            return Err(error);
        },
    }
    match next_checked_anchor(grouped, timezone, anchor) {
        Err(error) => Err(error),
        Ok(next_anchor) => match due_at_anchor(next_anchor, grouped) {
            Err(error) => Err(error),
            Ok(due) => Ok(Some(due)),
        },
    }
}

/// Rejects a span of length zero, a group without members, a member that is
/// not in its group, and a span that reaches the anchor after the next one
/// from `reference`.
pub fn validate(
    grouped: &GroupedCronSchedule,
    timezone: &Timezone,
    reference: UtcTime,
) -> (r: Result<(), SchedulerError>)
    ensures
        match r {
            Ok(()) => grouped_cron_error(grouped@, timezone@, reference@) is None,
            Err(error) => grouped_cron_error(grouped@, timezone@, reference@) == Some(error@),
        },
{
    if grouped.spread.is_zero() {
        return Err(invalid_grouped_cron("grouped cron spread must be greater than zero"));
    }
    if grouped.group_size == 0 {
        return Err(invalid_grouped_cron("grouped cron group_size must be greater than zero"));
    }
    if grouped.member_index >= grouped.group_size {
        return Err(invalid_grouped_cron("grouped cron member_index must be less than group_size"));
    }
    match next_checked_anchor(grouped, timezone, reference) {
        Ok(_) => Ok(()),
        Err(error) => Err(error),
    }
}

/// The anchor after an instant, with a gap after it that holds the span.
fn next_checked_anchor(
    grouped: &GroupedCronSchedule,
    timezone: &Timezone,
    instant: UtcTime,
) -> (r: Result<UtcTime, SchedulerError>)
    ensures
        interval_phase::instant_result(r) == checked_anchor_after(grouped@, timezone@, instant@),
{
    match grouped.cron.next_after(instant, timezone) {
        None => Err(invalid_grouped_cron("grouped cron could not compute next anchor")),
        Some(anchor) => match validate_anchor_gap(grouped, timezone, anchor) {
            Ok(()) => Ok(anchor),
            Err(error) => Err(error),
        },
    }
}

/// Rejects a span that reaches the anchor after `anchor`.
pub fn validate_anchor_gap(
    grouped: &GroupedCronSchedule,
    timezone: &Timezone,
    anchor: UtcTime,
) -> (r: Result<(), SchedulerError>)
    ensures
        match r {
            Ok(()) => anchor_gap_error(grouped@, timezone@, anchor@) is None,
            Err(error) => anchor_gap_error(grouped@, timezone@, anchor@) == Some(error@),
        },
{
    let next_anchor = match grouped.cron.next_after(anchor, timezone) {
        Some(next) => next,
        None => {
            return Err(invalid_grouped_cron("grouped cron could not compute anchor gap"));
        },
    };
    let gap: i128 = next_anchor.unix_nanos() - anchor.unix_nanos();
    let spread: i128 = match duration_or_out_of_range(grouped.spread) {
        Ok(delta) => delta,
        Err(error) => {
            return Err(error);
        },
    };
    if spread >= gap {
        return Err(
            invalid_grouped_cron(
                "grouped cron spread must be smaller than the next cron anchor gap",
            ),
        );
    }
    Ok(())
}

/// The due time of a member after an anchor.
pub fn due_at_anchor(
    anchor: UtcTime,
    grouped: &GroupedCronSchedule,
) -> (r: Result<UtcTime, SchedulerError>)
    requires
        grouped.group_size > 0,
    ensures
        interval_phase::instant_result(r) == due_at(anchor@, grouped@),
{
    match slot_offset(grouped) {
        Ok(offset) => instant_or_out_of_range(anchor.shifted(offset)),
        Err(error) => Err(error),
    }
}

/// The anchor of a due time of a member.
pub fn anchor_from_scheduled_at(
    scheduled_at: UtcTime,
    grouped: &GroupedCronSchedule,
) -> (r: Result<UtcTime, SchedulerError>)
    requires
        grouped.group_size > 0,
    ensures
        interval_phase::instant_result(r) == anchor_of(scheduled_at@, grouped@),
{
    match slot_offset(grouped) {
        Ok(offset) => instant_or_out_of_range(scheduled_at.shifted(-offset)),
        Err(error) => Err(error),
    }
}

/// How long after an anchor the slot of a member lies, in nanoseconds.
pub fn slot_offset(grouped: &GroupedCronSchedule) -> (r: Result<i128, SchedulerError>)
    requires
        grouped.group_size > 0,
    ensures
        match r {
            Ok(offset) => time::delta_of(slot_nanos(grouped@)) == Some(offset as int) && 0
                <= offset <= MAX_SPAN_NANOS,
            Err(error) => time::delta_of(slot_nanos(grouped@)) is None && error@
                == error::interval_out_of_range_error(),
        },
{
    let spread: u128 = grouped.spread.as_nanos();
    let size: u64 = grouped.group_size as u64;
    let turn: u64 = match &grouped.group_seed {
        Some(seed) => stable_seed_hash(seed.as_str()) % size,
        None => 0,
    };
    let slot: u64 = (grouped.member_index as u64 + turn) % size;
    proof {
        assert(slot == slot_index(grouped@));
        assert(spread * slot <= (u64::MAX * NANOS_PER_SEC + 999_999_999) * u32::MAX)
            by (nonlinear_arith)
            requires
                0 <= spread <= u64::MAX * NANOS_PER_SEC + 999_999_999,
                0 <= slot <= u32::MAX,
        ;
        lemma_slot_bounds(grouped@);
    }
    let offset: u128 = spread * slot as u128 / size as u128;
    nanos_to_delta(offset)
}

fn duration_or_out_of_range(duration: Duration) -> (r: Result<i128, SchedulerError>)
    ensures
        match r {
            Ok(delta) => time::delta_of(duration@) == Some(delta as int) && 0 <= delta
                <= MAX_SPAN_NANOS,
            Err(error) => time::delta_of(duration@) is None && error@
                == error::interval_out_of_range_error(),
        },
{
    match duration_to_delta(duration) {
        Some(delta) => Ok(delta),
        None => Err(SchedulerError::invalid_interval_out_of_range()),
    }
}

/// Nanoseconds as a shift of an instant, unless they are too many.
pub fn nanos_to_delta(nanos: u128) -> (r: Result<i128, SchedulerError>)
    ensures
        match r {
            Ok(delta) => time::delta_of(nanos as int) == Some(delta as int) && 0 <= delta
                <= MAX_SPAN_NANOS,
            Err(error) => time::delta_of(nanos as int) is None && error@
                == error::interval_out_of_range_error(),
        },
{
    if nanos <= MAX_SPAN_NANOS as u128 {
        Ok(nanos as i128)
    } else {
        Err(SchedulerError::invalid_interval_out_of_range())
    }
}

/// The first anchor at or after `lower_bound`, where it is after that bound
/// and not after `upper_bound`.
pub fn anchor_in_window(
    lower_bound: UtcTime,
    upper_bound: UtcTime,
    cron: &CronSchedule,
    timezone: &Timezone,
) -> (r: Result<Option<UtcTime>, SchedulerError>)
    ensures
        windowed_interval::due_result(r) == anchor_within(
            lower_bound@,
            upper_bound@,
            cron@,
            timezone@,
        ),
{
    let search_start = match instant_or_out_of_range(lower_bound.shifted(-1)) {
        Ok(instant) => instant,
        Err(error) => {
            return Err(error);
        },
    };
    match cron.next_after(search_start, timezone) {
        Some(anchor) => {
            if lower_bound.earlier_than(&anchor) && anchor.at_or_before(&upper_bound) {
                Ok(Some(anchor))
            } else {
                Ok(None)
            }
        },
        None => Ok(None),
    }
}

/// The hash that slots are turned by: the same on every machine and in every
/// version.
pub fn stable_seed_hash(seed: &str) -> (r: u64)
    ensures
        r == interval_phase::seed_hash(seed@),
{
    interval_phase::stable_seed_hash(seed)
}

fn invalid_grouped_cron(message: &str) -> (r: SchedulerError)
    ensures
        r@ == error::other_job_error(message@),
{
    SchedulerError::invalid_job_with_kind(InvalidJobKind::Other, message)
}

/// A slot is the share of the span that lies before it: a member without a seed
/// has the slot of its own number, and a seed turns it by its hash.
pub proof fn law_call_slot_offset(grouped: &GroupedCronSchedule, r: Result<i128, SchedulerError>)
    requires
        call_ensures(slot_offset, (grouped,), r),
        grouped.member_index < grouped.group_size,
        0 <= grouped.spread@ <= 9_223_372_036_854_775_807_000_000,
    ensures
        r is Ok,
        grouped.group_seed is None ==> r->Ok_0 == grouped.spread@ * grouped.member_index as int
            / grouped.group_size as int,
        grouped.group_seed matches Some(seed) ==> r->Ok_0 == grouped.spread@ * ((
        grouped.member_index + interval_phase::fnv1a(vstd::utf8::encode_utf8(seed@)))
            % grouped.group_size as int) / grouped.group_size as int,
{
    let size = grouped.group_size as int;
    lemma_slot_bounds(grouped@);
    vstd::arithmetic::div_mod::lemma_small_mod(grouped.member_index as nat, size as nat);
    if let Some(seed) = grouped.group_seed {
        let hash = interval_phase::fnv1a(vstd::utf8::encode_utf8(seed@)) as int;
        vstd::arithmetic::div_mod::lemma_add_mod_noop_right(
            grouped.member_index as int,
            hash,
            size,
        );
    }
}

/// The due time after a due time lies in the same slot, after the anchor that
/// follows the anchor of the first, on the clocks of the given zone.
pub proof fn law_call_next_after(
    scheduled_at: UtcTime,
    grouped: &GroupedCronSchedule,
    timezone: &Timezone,
    offset: Result<i128, SchedulerError>,
    next_anchor: int,
    r: Result<Option<UtcTime>, SchedulerError>,
)
    requires
        call_ensures(next_after, (scheduled_at, grouped, timezone), r),
        call_ensures(slot_offset, (grouped,), offset),
        r is Ok,
        offset is Ok,
        cron_schedule::cron_next_after(
            grouped@.cron,
            scheduled_at@ - offset->Ok_0,
            timezone@,
        ) == Some(next_anchor),
    ensures
        r->Ok_0 is Some,
        r->Ok_0->0@ == next_anchor + offset->Ok_0,
        next_anchor - (scheduled_at@ - offset->Ok_0) > grouped.spread@,
{
}

/// The due time after a due time is found wherever the spans around both stay
/// inside the calendar and end before the anchors that follow them.
pub proof fn law_call_next_after_found(
    scheduled_at: UtcTime,
    grouped: &GroupedCronSchedule,
    timezone: &Timezone,
    offset: Result<i128, SchedulerError>,
    anchors: Seq<int>,
    reference_anchors: Seq<int>,
    r: Result<Option<UtcTime>, SchedulerError>,
)
    requires
        call_ensures(next_after, (scheduled_at, grouped, timezone), r),
        call_ensures(slot_offset, (grouped,), offset),
        offset is Ok,
        0 < grouped.spread@ <= 9_223_372_036_854_775_807_000_000,
        grouped.member_index < grouped.group_size,
        anchors.len() == 3,
        anchors[0] == scheduled_at@ - offset->Ok_0,
        time::in_calendar(anchors[0]),
        time::in_calendar(anchors[1] + offset->Ok_0),
        anchors[1] - anchors[0] > grouped.spread@,
        anchors[2] - anchors[1] > grouped.spread@,
        cron_schedule::cron_next_after(grouped@.cron, anchors[0], timezone@) == Some(anchors[1]),
        cron_schedule::cron_next_after(grouped@.cron, anchors[1], timezone@) == Some(anchors[2]),
        reference_anchors.len() == 2,
        cron_schedule::cron_next_after(grouped@.cron, scheduled_at@, timezone@) == Some(
            reference_anchors[0],
        ),
        cron_schedule::cron_next_after(grouped@.cron, reference_anchors[0], timezone@) == Some(
            reference_anchors[1],
        ),
        reference_anchors[1] - reference_anchors[0] > grouped.spread@,
    ensures
        r is Ok,
        r->Ok_0 is Some,
        r->Ok_0->0@ == anchors[1] + offset->Ok_0,
{
}

/// The first due time of a member lies in its slot after the first anchor of
/// the span that ends now, if it is still to come there, and otherwise in its
/// slot after the next anchor.
pub proof fn law_call_initial(
    now: UtcTime,
    grouped: &GroupedCronSchedule,
    timezone: &Timezone,
    offset: Result<i128, SchedulerError>,
    current: int,
    r: Result<UtcTime, SchedulerError>,
)
    requires
        call_ensures(initial_next_run_at, (now, grouped, timezone), r),
        call_ensures(slot_offset, (grouped,), offset),
        r is Ok,
        offset is Ok,
        cron_schedule::cron_next_after(
            grouped@.cron,
            now@ - grouped.spread@ - 1,
            timezone@,
        ) == Some(current),
    ensures
        now@ - grouped.spread@ < current <= now@ && current + offset->Ok_0 > now@ ==> r->Ok_0@
            == current + offset->Ok_0,
        !(now@ - grouped.spread@ < current <= now@ && current + offset->Ok_0 > now@) ==> {
            &&& cron_schedule::cron_next_after(grouped@.cron, now@, timezone@) matches Some(next)
            &&& r->Ok_0@ == next + offset->Ok_0
        },
{
}

/// What is refused: a span of length zero, a group without members, a member
/// outside its group, an expression without further anchors, and a span that
/// reaches the anchor after the next one.
pub proof fn law_call_validate(
    grouped: &GroupedCronSchedule,
    timezone: &Timezone,
    reference: UtcTime,
    anchor: int,
    following: int,
    r: Result<(), SchedulerError>,
)
    requires
        call_ensures(validate, (grouped, timezone, reference), r),
    ensures
        grouped.spread@ == 0 ==> r is Err && r->Err_0@ == ErrorView::InvalidJob(
            InvalidJobKind::Other,
            "grouped cron spread must be greater than zero"@,
        ),
        grouped.spread@ > 0 && grouped.group_size == 0 ==> r is Err && r->Err_0@
            == ErrorView::InvalidJob(
            InvalidJobKind::Other,
            "grouped cron group_size must be greater than zero"@,
        ),
        grouped.spread@ > 0 && grouped.member_index >= grouped.group_size > 0 ==> r is Err
            && r->Err_0@ == ErrorView::InvalidJob(
            InvalidJobKind::Other,
            "grouped cron member_index must be less than group_size"@,
        ),
        grouped.spread@ > 0 && grouped.member_index < grouped.group_size
            && cron_schedule::cron_next_after(grouped@.cron, reference@, timezone@) is None ==> r
            is Err && r->Err_0@ == ErrorView::InvalidJob(
            InvalidJobKind::Other,
            "grouped cron could not compute next anchor"@,
        ),
        0 < grouped.spread@ <= 9_223_372_036_854_775_807_000_000 && grouped.member_index
            < grouped.group_size && cron_schedule::cron_next_after(
            grouped@.cron,
            reference@,
            timezone@,
        ) == Some(anchor) && cron_schedule::cron_next_after(grouped@.cron, anchor, timezone@)
            == Some(following) ==> {
            &&& r is Ok <==> grouped.spread@ < following - anchor
            &&& r is Err ==> r->Err_0@ == ErrorView::InvalidJob(
                InvalidJobKind::Other,
                "grouped cron spread must be smaller than the next cron anchor gap"@,
            )
        },
{
}

} // verus!
