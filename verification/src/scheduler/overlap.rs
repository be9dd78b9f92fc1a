//! What becomes of a trigger while other runs are active.
use vstd::prelude::*;
use crate::model::schedule::OverlapPolicy;
use crate::scheduler::trigger::PendingTrigger;

verus! {

#[derive(Debug, Clone, Copy, PartialEq, Eq)]
pub enum OverlapAction {
    Spawn(PendingTrigger),
    QueueUpdated,
    Dropped,
}

/// What becomes of a trigger: it runs at once where nothing is active or
/// overlapping is allowed; otherwise it is dropped, or waits behind at most one
/// other that came before it.
pub open spec fn overlap_action(
    policy: OverlapPolicy,
    active_count: nat,
    trigger: PendingTrigger,
) -> OverlapAction {
    if active_count == 0 || policy == OverlapPolicy::AllowParallel {
        OverlapAction::Spawn(trigger)
    } else if policy == OverlapPolicy::QueueOne {
        OverlapAction::QueueUpdated
    } else {
        OverlapAction::Dropped
    }
}

/// The trigger that waits afterwards: the first one that came keeps its place.
pub open spec fn queue_after(
    policy: OverlapPolicy,
    active_count: nat,
    queued: Option<PendingTrigger>,
    trigger: PendingTrigger,
) -> Option<PendingTrigger> {
    if overlap_action(policy, active_count, trigger) == OverlapAction::QueueUpdated
        && queued is None {
        Some(trigger)
    } else {
        queued
    }
}

/// While a run is active, forbidding overlap drops triggers, queueing keeps one
/// at most, and only allowing it starts a second run.
pub proof fn law_overlap(
    policy: OverlapPolicy,
    active_count: nat,
    queued: Option<PendingTrigger>,
    trigger: PendingTrigger,
)
    requires
        active_count > 0,
    ensures
        policy == OverlapPolicy::Forbid ==> overlap_action(policy, active_count, trigger)
            == OverlapAction::Dropped && queue_after(policy, active_count, queued, trigger)
            == queued,
        policy == OverlapPolicy::QueueOne ==> overlap_action(policy, active_count, trigger)
            == OverlapAction::QueueUpdated && queue_after(
            policy,
            active_count,
            queued,
            trigger,
        ) is Some && (queued is Some ==> queue_after(policy, active_count, queued, trigger)
            == queued),
        policy == OverlapPolicy::AllowParallel <==> overlap_action(
            policy,
            active_count,
            trigger,
        ) is Spawn,
{
}

/// Takes the trigger that waits, once nothing is active any more.
pub fn take_queued_if_idle(
    active_count: usize,
    queued_trigger: &mut Option<PendingTrigger>,
) -> (r: Option<PendingTrigger>)
    ensures
        active_count == 0 ==> r == *old(queued_trigger) && *final(queued_trigger) is None,
        active_count > 0 ==> r is None && *final(queued_trigger) == *old(queued_trigger),
{
    if active_count == 0 {
        queued_trigger.take()
    } else {
        None
    }
}

/// Decides what becomes of a trigger.
pub fn dispatch_trigger(
    policy: OverlapPolicy,
    active_count: usize,
    queued_trigger: &mut Option<PendingTrigger>,
    trigger: PendingTrigger,
) -> (r: OverlapAction)
    ensures
        r == overlap_action(policy, active_count as nat, trigger),
        *final(queued_trigger) == queue_after(
            policy,
            active_count as nat,
            *old(queued_trigger),
            trigger,
        ),
{
    match policy {
        OverlapPolicy::AllowParallel => OverlapAction::Spawn(trigger),
        OverlapPolicy::Forbid => {
            if active_count == 0 {
                OverlapAction::Spawn(trigger)
            } else {
                OverlapAction::Dropped
            }
        },
        OverlapPolicy::QueueOne => {
            if active_count == 0 {
                OverlapAction::Spawn(trigger)
            } else {
                if queued_trigger.is_none() {
                    *queued_trigger = Some(trigger);
                }
                OverlapAction::QueueUpdated
            }
        },
    }
}

/// A trigger starts at once where nothing is active, and leaves the one that
/// waits alone. While a run is active it starts only where runs may overlap, it
/// is dropped where they may not, and it waits where one may wait and none does.
pub proof fn law_call_dispatch(
    policy: OverlapPolicy,
    active_count: usize,
    queued: &mut Option<PendingTrigger>,
    trigger: PendingTrigger,
    r: OverlapAction,
)
    requires
        call_ensures(dispatch_trigger, (policy, active_count, queued, trigger), r),
    ensures
        active_count == 0 ==> r == OverlapAction::Spawn(trigger),
        policy == OverlapPolicy::AllowParallel ==> r == OverlapAction::Spawn(trigger),
        r is Spawn ==> *final(queued) == *old(queued),
        active_count > 0 && policy == OverlapPolicy::Forbid ==> r == OverlapAction::Dropped
            && *final(queued) == *old(queued),
        active_count > 0 && policy == OverlapPolicy::QueueOne ==> {
            &&& r == OverlapAction::QueueUpdated
            &&& *old(queued) is None ==> *final(queued) == Some(trigger)
            &&& *old(queued) is Some ==> *final(queued) == *old(queued)
        },
{
}

/// The trigger that waits is taken once nothing is active, and only then.
pub proof fn law_call_take_queued(
    active_count: usize,
    queued: &mut Option<PendingTrigger>,
    r: Option<PendingTrigger>,
)
    requires
        call_ensures(take_queued_if_idle, (active_count, queued), r),
    ensures
        active_count == 0 ==> r == *old(queued) && *final(queued) is None,
        active_count > 0 ==> r is None && *final(queued) == *old(queued),
{
}

} // verus!
