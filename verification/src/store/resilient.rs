//! A mirror that stands in for a store that cannot be reached.
use std::collections::VecDeque;
use vstd::prelude::*;
use crate::model::state::JobState;
use crate::store::in_memory::{self, InMemoryStateStore};
use crate::store::{ResilientStoreError, StoreEvent, StoreEventView, StoreOperation};
use crate::text_map::TextMap;

verus! {

/// What a [`ResilientStateStore`] holds.
pub struct ResilientView {
    /// Whether the primary store is taken to be out of reach.
    pub degraded: bool,
    /// The states as they were last read or written.
    pub mirror: Map<Seq<char>, JobState>,
    /// What the primary store has yet to be told, by job id: a state, or that
    /// there is none any more.
    pub dirty: Map<Seq<char>, Option<JobState>>,
    /// What happened and was not yet handed out.
    pub events: Seq<StoreEventView>,
}

pub open spec fn event_views(events: Seq<StoreEvent>) -> Seq<StoreEventView> {
    events.map_values(|event: StoreEvent| event@)
}

/// How the primary store answered a request.
#[derive(Debug)]
pub enum PrimaryReply<T> {
    Done(T),
    /// It could not be reached; with the text of its error.
    Unreachable(String),
    /// It failed in another way.
    Failed,
}

impl<T> PrimaryReply<T> {
    /// What an error of the primary store, with its text, amounts to: it goes
    /// by what the error answers when asked whether the store could be reached.
    pub fn of_error<E: ResilientStoreError>(error: &E, message: String) -> (r: Self)
        ensures
            r is Unreachable ==> {
                &&& r == PrimaryReply::<T>::Unreachable(message)
                &&& call_ensures(E::is_connection_issue, (error,), true)
            },
            r !is Unreachable ==> {
                &&& r == PrimaryReply::<T>::Failed
                &&& call_ensures(E::is_connection_issue, (error,), false)
            },
    {
        if error.is_connection_issue() {
            PrimaryReply::Unreachable(message)
        } else {
            PrimaryReply::Failed
        }
    }
}

/// What becomes of a load.
#[derive(Debug, PartialEq, Eq)]
pub enum LoadOutcome {
    /// The state, or that there is none.
    Found(Option<JobState>),
    /// The error of the primary store is handed on.
    PrimaryFailed,
}

/// Stands before a primary store and takes over after connection-class
/// failures. What the primary store missed is dirty: it is what its job is
/// served until a write of the job is accepted, and as long as anything is
/// dirty the store is degraded.
///
/// Each operation comes in two halves: what is done before the primary store is
/// asked, and what is done with its answer.
#[derive(Debug)]
pub struct ResilientStateStore {
    degraded: bool,
    mirror: InMemoryStateStore,
    dirty: TextMap<Option<JobState>>,
    events: VecDeque<StoreEvent>,
}

impl View for ResilientStateStore {
    type V = ResilientView;

    closed spec fn view(&self) -> ResilientView {
        ResilientView {
            degraded: self.degraded,
            mirror: self.mirror@,
            dirty: self.dirty@,
            events: event_views(self.events@),
        }
    }
}

/// The store after a connection-class failure of an operation.
pub open spec fn after_degraded(
    store: ResilientView,
    operation: StoreOperation,
    error: Seq<char>,
) -> ResilientView {
    ResilientView {
        degraded: true,
        events: if store.degraded {
            store.events
        } else {
            store.events.push(StoreEventView::Degraded(operation, error))
        },
        ..store
    }
}

/// The store once the primary store answers again and nothing is dirty.
pub open spec fn after_recovered(store: ResilientView, operation: StoreOperation) -> ResilientView {
    ResilientView {
        degraded: false,
        events: if store.degraded {
            store.events.push(StoreEventView::Recovered(operation))
        } else {
            store.events
        },
        ..store
    }
}

/// The store with the mirror set to what a job has.
pub open spec fn with_mirror(
    store: ResilientView,
    job_id: Seq<char>,
    state: Option<JobState>,
) -> ResilientView {
    ResilientView {
        mirror: match state {
            Some(value) => store.mirror.insert(value.job_id@, value),
            None => store.mirror.remove(job_id),
        },
        ..store
    }
}

/// The store with a note of what the primary store has yet to be told.
pub open spec fn with_dirty(
    store: ResilientView,
    job_id: Seq<char>,
    state: Option<JobState>,
) -> ResilientView {
    ResilientView { dirty: store.dirty.insert(job_id, state), ..store }
}

/// The store with an event at the end.
pub open spec fn with_event(store: ResilientView, event: StoreEventView) -> ResilientView {
    ResilientView { events: store.events.push(event), ..store }
}

/// The store before a write is passed to the primary store: the mirror has it,
/// and while degraded it is dirty and recovery is under way.
pub open spec fn write_begun(
    store: ResilientView,
    operation: StoreOperation,
    job_id: Seq<char>,
    state: Option<JobState>,
) -> ResilientView {
    let mirrored = with_mirror(store, job_id, state);
    if store.degraded {
        with_event(
            with_dirty(mirrored, job_id, state),
            StoreEventView::Recovering(operation),
        )
    } else {
        mirrored
    }
}

/// The store after the primary store answered: with nothing dirty it has
/// recovered.
pub open spec fn after_answer(store: ResilientView, operation: StoreOperation) -> ResilientView {
    if store.dirty == Map::<Seq<char>, Option<JobState>>::empty() {
        after_recovered(store, operation)
    } else {
        store
    }
}

/// The store after the primary store accepted a write: the job is clean, and
/// with the last dirty job the store has recovered.
pub open spec fn write_accepted(
    store: ResilientView,
    operation: StoreOperation,
    job_id: Seq<char>,
) -> ResilientView {
    after_answer(ResilientView { dirty: store.dirty.remove(job_id), ..store }, operation)
}

/// The store after the primary store could not be reached with a write: it is
/// degraded, and the job is dirty.
pub open spec fn write_missed(
    store: ResilientView,
    operation: StoreOperation,
    job_id: Seq<char>,
    state: Option<JobState>,
    error: Seq<char>,
) -> ResilientView {
    with_event(
        with_dirty(after_degraded(store, operation, error), job_id, state),
        StoreEventView::RecoveryFailed(operation, error),
    )
}

/// What a load gives without asking the primary store: of a dirty job, what it
/// is to be there.
pub open spec fn dirty_load(store: ResilientView, job_id: Seq<char>) -> Option<Option<JobState>> {
    if store.dirty.contains_key(job_id) {
        Some(store.dirty[job_id])
    } else {
        None
    }
}

/// After a write that the primary store missed, a load of the job gives what
/// was written, without asking the primary store: after a save the state
/// itself, and after a delete nothing.
pub proof fn law_missed_write_is_served(
    store: ResilientView,
    job_id: Seq<char>,
    state: Option<JobState>,
    operation: StoreOperation,
    error: Seq<char>,
)
    ensures
        dirty_load(
            write_missed(
                write_begun(store, operation, job_id, state),
                operation,
                job_id,
                state,
                error,
            ),
            job_id,
        ) == Some(state),
        write_missed(
            write_begun(store, operation, job_id, state),
            operation,
            job_id,
            state,
            error,
        ).degraded,
{
}

/// A write that the primary store accepts leaves its job clean, and once no job
/// is dirty the store is no longer degraded.
pub proof fn law_accepted_write_recovers(
    store: ResilientView,
    job_id: Seq<char>,
    state: Option<JobState>,
    operation: StoreOperation,
)
    requires
        forall|other: Seq<char>| store.dirty.contains_key(other) ==> other == job_id,
    ensures
        !write_accepted(write_begun(store, operation, job_id, state), operation, job_id).degraded,
        write_accepted(write_begun(store, operation, job_id, state), operation, job_id).dirty
            == Map::<Seq<char>, Option<JobState>>::empty(),
{
    let begun = write_begun(store, operation, job_id, state);
    assert(begun.dirty.remove(job_id) =~= Map::<Seq<char>, Option<JobState>>::empty());
}

/// A write for one job leaves what the primary store has yet to be told about
/// the others.
pub proof fn law_writes_are_separate(
    store: ResilientView,
    job_id: Seq<char>,
    state: Option<JobState>,
    operation: StoreOperation,
    error: Seq<char>,
    other: Seq<char>,
)
    requires
        other != job_id,
        store.dirty.contains_key(other),
    ensures
        write_accepted(
            write_begun(store, operation, job_id, state),
            operation,
            job_id,
        ).dirty.contains_key(other),
        write_accepted(
            write_begun(store, operation, job_id, state),
            operation,
            job_id,
        ).dirty[other] == store.dirty[other],
        write_missed(
            write_begun(store, operation, job_id, state),
            operation,
            job_id,
            state,
            error,
        ).dirty[other] == store.dirty[other],
{
}

/// What can happen to a store.
pub enum StoreStep {
    /// The primary store answered a load of a job.
    LoadAnswered { job_id: Seq<char>, state: Option<JobState> },
    /// The primary store could not be reached with a load.
    LoadMissed { error: Seq<char> },
    /// A write of a job began; `None` is a delete.
    WriteBegun { operation: StoreOperation, job_id: Seq<char>, state: Option<JobState> },
    /// The primary store accepted a write of a job.
    WriteAccepted { operation: StoreOperation, job_id: Seq<char> },
    /// The primary store could not be reached with a write of a job.
    WriteMissed {
        operation: StoreOperation,
        job_id: Seq<char>,
        state: Option<JobState>,
        error: Seq<char>,
    },
    /// The events were handed out.
    Drained,
}

/// The store after a step.
pub open spec fn after_step(store: ResilientView, step: StoreStep) -> ResilientView {
    match step {
        StoreStep::LoadAnswered { job_id, state } => after_answer(
            with_mirror(store, job_id, state),
            StoreOperation::Load,
        ),
        StoreStep::LoadMissed { error } => after_degraded(store, StoreOperation::Load, error),
        StoreStep::WriteBegun { operation, job_id, state } => write_begun(
            store,
            operation,
            job_id,
            state,
        ),
        StoreStep::WriteAccepted { operation, job_id } => write_accepted(store, operation, job_id),
        StoreStep::WriteMissed { operation, job_id, state, error } => write_missed(
            store,
            operation,
            job_id,
            state,
            error,
        ),
        StoreStep::Drained => ResilientView { events: Seq::empty(), ..store },
    }
}

/// The store after steps in a row.
pub open spec fn after_steps(store: ResilientView, steps: Seq<StoreStep>) -> ResilientView
    decreases steps.len(),
{
    if steps.len() == 0 {
        store
    } else {
        after_step(after_steps(store, steps.drop_last()), steps.last())
    }
}

/// What was last written of a job in the course of steps, or else what was
/// there before.
pub open spec fn last_written(
    before: Option<JobState>,
    wanted: Seq<char>,
    steps: Seq<StoreStep>,
) -> Option<JobState>
    decreases steps.len(),
{
    if steps.len() == 0 {
        before
    } else {
        match steps.last() {
            StoreStep::WriteBegun { operation, job_id, state } if job_id == wanted => state,
            StoreStep::WriteMissed { operation, job_id, state, error } if job_id == wanted => state,
            _ => last_written(before, wanted, steps.drop_last()),
        }
    }
}

/// Whether a step is a write of a job that the primary store accepted.
pub open spec fn accepts(step: StoreStep, wanted: Seq<char>) -> bool {
    step matches StoreStep::WriteAccepted { operation, job_id } && job_id == wanted
}

/// Whether the store is degraded as long as anything is dirty.
pub open spec fn degraded_while_dirty(store: ResilientView) -> bool {
    store.degraded || store.dirty == Map::<Seq<char>, Option<JobState>>::empty()
}

/// As long as anything is dirty the store stays degraded, whatever happens.
pub proof fn law_degraded_while_dirty(store: ResilientView, steps: Seq<StoreStep>)
    requires
        degraded_while_dirty(store),
    ensures
        degraded_while_dirty(after_steps(store, steps)),
    decreases steps.len(),
{
    if steps.len() > 0 {
        law_degraded_while_dirty(store, steps.drop_last());
        let before = after_steps(store, steps.drop_last());
        if !before.degraded {
            assert forall|job_id: Seq<char>| #[trigger] before.dirty.remove(job_id)
                == before.dirty by {
                assert(before.dirty.remove(job_id) =~= before.dirty);
            }
        }
    }
}

/// A dirty job is served what was last written of it, without asking the primary
/// store, until a write of the job is accepted, whatever is loaded and written
/// in between, of this job and of others.
pub proof fn law_dirty_is_served(
    store: ResilientView,
    job_id: Seq<char>,
    steps: Seq<StoreStep>,
)
    requires
        degraded_while_dirty(store),
        store.dirty.contains_key(job_id),
        forall|i: int| 0 <= i < steps.len() ==> !accepts(#[trigger] steps[i], job_id),
    ensures
        dirty_load(after_steps(store, steps), job_id) == Some(
            last_written(store.dirty[job_id], job_id, steps),
        ),
    decreases steps.len(),
{
    if steps.len() > 0 {
        let front = steps.drop_last();
        assert forall|i: int| 0 <= i < front.len() implies !accepts(#[trigger] front[i], job_id) by {
            assert(front[i] == steps[i]);
        }
        law_dirty_is_served(store, job_id, front);
        law_degraded_while_dirty(store, front);
        let before = after_steps(store, front);
        assert(before.dirty.contains_key(job_id));
        assert(before.degraded);
        assert(!accepts(steps[steps.len() - 1], job_id));
    }
}

impl ResilientStateStore {
    /// A store whose primary store is within reach.
    pub fn new() -> (r: Self)
        ensures
            r@ == (ResilientView {
                degraded: false,
                mirror: Map::empty(),
                dirty: Map::empty(),
                events: Seq::empty(),
            }),
    {
        let r = ResilientStateStore {
            degraded: false,
            mirror: InMemoryStateStore::new(),
            dirty: TextMap::new(),
            events: VecDeque::new(),
        };
        assert(r@.events =~= Seq::<StoreEventView>::empty());
        r
    }

    /// A store that starts on its mirror.
    pub fn degraded() -> (r: Self)
        ensures
            r@ == (ResilientView {
                degraded: true,
                mirror: Map::empty(),
                dirty: Map::empty(),
                events: Seq::empty(),
            }),
    {
        let r = ResilientStateStore {
            degraded: true,
            mirror: InMemoryStateStore::new(),
            dirty: TextMap::new(),
            events: VecDeque::new(),
        };
        assert(r@.events =~= Seq::<StoreEventView>::empty());
        r
    }

    /// Whether the primary store is taken to be out of reach.
    pub fn is_degraded(&self) -> (r: bool)
        ensures
            r == self@.degraded,
    {
        self.degraded
    }

    /// What a load gives without asking the primary store.
    pub fn begin_load(&self, job_id: &str) -> (r: Option<Option<JobState>>)
        ensures
            r == dirty_load(self@, job_id@),
    {
        match self.dirty.get(job_id) {
            Some(Some(state)) => Some(Some(state.clone())),
            Some(None) => Some(None),
            None => None,
        }
    }

    /// What becomes of a load for which the primary store was asked. What it
    /// has goes into the mirror, and with nothing dirty the store has recovered;
    /// where it cannot be reached the mirror answers.
    pub fn finish_load(
        &mut self,
        job_id: &str,
        reply: PrimaryReply<Option<JobState>>,
    ) -> (r: LoadOutcome)
        ensures
            match reply {
                PrimaryReply::Done(state) => r == LoadOutcome::Found(state) && final(self)@
                    == after_answer(
                    with_mirror(old(self)@, job_id@, state),
                    StoreOperation::Load,
                ),
                PrimaryReply::Unreachable(error) => r == LoadOutcome::Found(
                    in_memory::stored(old(self)@.mirror, job_id@),
                ) && final(self)@ == after_degraded(old(self)@, StoreOperation::Load, error@),
                PrimaryReply::Failed => r == LoadOutcome::PrimaryFailed && final(self)@ == old(
                    self,
                )@,
            },
    {
        match reply {
            PrimaryReply::Done(state) => {
                match &state {
                    Some(value) => self.mirror.save(value),
                    None => self.mirror.delete(job_id),
                }
                self.mark_answered(StoreOperation::Load);
                LoadOutcome::Found(state)
            },
            PrimaryReply::Unreachable(error) => {
                self.mark_degraded(StoreOperation::Load, error);
                LoadOutcome::Found(self.mirror.load(job_id))
            },
            PrimaryReply::Failed => LoadOutcome::PrimaryFailed,
        }
    }

    /// What is done before a state is saved in the primary store.
    pub fn begin_save(&mut self, state: &JobState)
        ensures
            final(self)@ == write_begun(
                old(self)@,
                StoreOperation::Save,
                state.job_id@,
                Some(*state),
            ),
    {
        self.mirror.save(state);
        if self.degraded {
            self.dirty.insert(state.job_id.as_str(), Some(state.clone()));
            self.push_event(StoreEvent::Recovering { operation: StoreOperation::Save });
        }
    }

    /// What becomes of a save: `false` where the error of the primary store is
    /// handed on.
    pub fn finish_save(&mut self, state: &JobState, reply: PrimaryReply<()>) -> (r: bool)
        ensures
            r == !(reply is Failed),
            final(self)@ == match reply {
                PrimaryReply::Done(_) => write_accepted(
                    old(self)@,
                    StoreOperation::Save,
                    state.job_id@,
                ),
                PrimaryReply::Unreachable(error) => write_missed(
                    old(self)@,
                    StoreOperation::Save,
                    state.job_id@,
                    Some(*state),
                    error@,
                ),
                PrimaryReply::Failed => old(self)@,
            },
    {
        match reply {
            PrimaryReply::Done(()) => {
                self.clear_dirty(state.job_id.as_str(), StoreOperation::Save);
                true
            },
            PrimaryReply::Unreachable(error) => {
                let text = error.clone();
                self.mark_degraded(StoreOperation::Save, error);
                self.dirty.insert(state.job_id.as_str(), Some(state.clone()));
                self.push_event(
                    StoreEvent::RecoveryFailed { operation: StoreOperation::Save, error: text },
                );
                true
            },
            PrimaryReply::Failed => false,
        }
    }

    /// What is done before a state is deleted in the primary store.
    pub fn begin_delete(&mut self, job_id: &str)
        ensures
            final(self)@ == write_begun(old(self)@, StoreOperation::Delete, job_id@, None),
    {
        self.mirror.delete(job_id);
        if self.degraded {
            self.dirty.insert(job_id, None);
            self.push_event(StoreEvent::Recovering { operation: StoreOperation::Delete });
        }
    }

    /// What becomes of a delete: `false` where the error of the primary store
    /// is handed on.
    pub fn finish_delete(&mut self, job_id: &str, reply: PrimaryReply<()>) -> (r: bool)
        ensures
            r == !(reply is Failed),
            final(self)@ == match reply {
                PrimaryReply::Done(_) => write_accepted(
                    old(self)@,
                    StoreOperation::Delete,
                    job_id@,
                ),
                PrimaryReply::Unreachable(error) => write_missed(
                    old(self)@,
                    StoreOperation::Delete,
                    job_id@,
                    None,
                    error@,
                ),
                PrimaryReply::Failed => old(self)@,
            },
    {
        match reply {
            PrimaryReply::Done(()) => {
                self.clear_dirty(job_id, StoreOperation::Delete);
                true
            },
            PrimaryReply::Unreachable(error) => {
                let text = error.clone();
                self.mark_degraded(StoreOperation::Delete, error);
                self.dirty.insert(job_id, None);
                self.push_event(
                    StoreEvent::RecoveryFailed { operation: StoreOperation::Delete, error: text },
                );
                true
            },
            PrimaryReply::Failed => false,
        }
    }

    /// Hands out what happened since the last time, oldest first.
    pub fn drain_events(&mut self) -> (r: Vec<StoreEvent>)
        ensures
            event_views(r@) == old(self)@.events,
            final(self)@ == (ResilientView { events: Seq::empty(), ..old(self)@ }),
    {
        let mut events: Vec<StoreEvent> = Vec::new();
        let ghost all = self.events@;
        let ghost before = *self;
        assert(event_views(events@) + event_views(all) =~= event_views(all));
        while self.events.len() > 0
            invariant
                before == *old(self),
                all == before.events@,
                self.degraded == before.degraded,
                self.mirror == before.mirror,
                self.dirty == before.dirty,
                events@ + self.events@ == all,
            decreases self.events@.len(),
        {
            let ghost rest = self.events@;
            let ghost taken = events@;
            match self.events.pop_front() {
                Some(event) => {
                    events.push(event);
                    assert(events@ + self.events@ =~= taken + rest);
                },
                None => {},
            }
        }
        proof {
            assert(self.events@ =~= Seq::<StoreEvent>::empty());
            assert(events@ =~= all);
            assert(event_views(self.events@) =~= Seq::<StoreEventView>::empty());
        }
        events
    }

    fn push_event(&mut self, event: StoreEvent)
        ensures
            final(self)@ == with_event(old(self)@, event@),
    {
        let ghost before = self.events@;
        self.events.push_back(event);
        assert(event_views(self.events@) =~= event_views(before).push(event@));
    }

    fn mark_degraded(&mut self, operation: StoreOperation, error: String)
        ensures
            final(self)@ == after_degraded(old(self)@, operation, error@),
    {
        let was_degraded = self.degraded;
        self.degraded = true;
        if !was_degraded {
            self.push_event(StoreEvent::Degraded { operation, error });
        }
    }

    fn mark_recovered(&mut self, operation: StoreOperation)
        ensures
            final(self)@ == after_recovered(old(self)@, operation),
    {
        let was_degraded = self.degraded;
        self.degraded = false;
        if was_degraded {
            self.push_event(StoreEvent::Recovered { operation });
        }
    }

    fn mark_answered(&mut self, operation: StoreOperation)
        ensures
            final(self)@ == after_answer(old(self)@, operation),
    {
        if self.dirty.is_empty() {
            self.mark_recovered(operation);
        }
    }

    fn clear_dirty(&mut self, job_id: &str, operation: StoreOperation)
        ensures
            final(self)@ == write_accepted(old(self)@, operation, job_id@),
    {
        let _ = self.dirty.remove(job_id);
        self.mark_answered(operation);
    }
}

/// A save goes into the mirror before the primary store is asked, in place of
/// what the job had there. Only while degraded is it noted as missed, and told.
pub proof fn law_call_begin_save(store: &mut ResilientStateStore, state: &JobState, other: Seq<char>)
    requires
        call_ensures(ResilientStateStore::begin_save, (store, state), ()),
    ensures
        final(store)@.degraded == old(store)@.degraded,
        final(store)@.mirror.contains_key(state.job_id@),
        final(store)@.mirror[state.job_id@] == *state,
        other != state.job_id@ ==> {
            &&& final(store)@.mirror.contains_key(other) == old(store)@.mirror.contains_key(other)
            &&& final(store)@.mirror.contains_key(other) ==> final(store)@.mirror[other] == old(
                store
            )@.mirror[other]
            &&& final(store)@.dirty.contains_key(other) == old(store)@.dirty.contains_key(other)
            &&& final(store)@.dirty.contains_key(other) ==> final(store)@.dirty[other] == old(
                store
            )@.dirty[other]
        },
        !old(store)@.degraded ==> final(store)@.dirty == old(store)@.dirty && final(
            store
        )@.events == old(store)@.events,
        old(store)@.degraded ==> final(store)@.dirty.contains_key(state.job_id@) && final(
            store
        )@.dirty[state.job_id@] == Some(*state) && final(store)@.events == old(
            store
        )@.events.push(StoreEventView::Recovering(StoreOperation::Save)),
{
}

/// A delete empties the mirror of the job before the primary store is asked.
/// Only while degraded is it noted as missed, and told.
pub proof fn law_call_begin_delete(store: &mut ResilientStateStore, job_id: &str, other: Seq<char>)
    requires
        call_ensures(ResilientStateStore::begin_delete, (store, job_id), ()),
    ensures
        final(store)@.degraded == old(store)@.degraded,
        !final(store)@.mirror.contains_key(job_id@),
        other != job_id@ ==> {
            &&& final(store)@.mirror.contains_key(other) == old(store)@.mirror.contains_key(other)
            &&& final(store)@.mirror.contains_key(other) ==> final(store)@.mirror[other] == old(
                store
            )@.mirror[other]
            &&& final(store)@.dirty.contains_key(other) == old(store)@.dirty.contains_key(other)
        },
        !old(store)@.degraded ==> final(store)@.dirty == old(store)@.dirty && final(
            store
        )@.events == old(store)@.events,
        old(store)@.degraded ==> final(store)@.dirty.contains_key(job_id@) && final(
            store
        )@.dirty[job_id@] is None && final(store)@.events == old(store)@.events.push(
            StoreEventView::Recovering(StoreOperation::Delete),
        ),
{
}

/// A save that the primary store accepted cleans its job alone, and the store
/// has recovered exactly where nothing else is dirty; that is told once. One
/// that was missed is noted and told, and degrades the store. Any other failure
/// is handed on and changes nothing. The mirror stays as it is.
pub proof fn law_call_finish_save(
    store: &mut ResilientStateStore,
    state: &JobState,
    reply: PrimaryReply<()>,
    r: bool,
    other: Seq<char>,
)
    requires
        call_ensures(ResilientStateStore::finish_save, (store, state, reply), r),
    ensures
        r == !(reply is Failed),
        final(store)@.mirror == old(store)@.mirror,
        reply is Failed ==> final(store)@ == old(store)@,
        other != state.job_id@ ==> final(store)@.dirty.contains_key(other) == old(
            store
        )@.dirty.contains_key(other),
        reply is Done ==> {
            &&& !final(store)@.dirty.contains_key(state.job_id@)
            &&& (old(store)@.dirty.contains_key(other) && other != state.job_id@) ==> final(
                store
            )@.degraded == old(store)@.degraded && final(store)@.events == old(store)@.events
            &&& (forall|job: Seq<char>| old(store)@.dirty.contains_key(job) ==> job
                == state.job_id@) ==> !final(store)@.degraded && final(store)@.events == (if old(
                store
            )@.degraded {
                old(store)@.events.push(StoreEventView::Recovered(StoreOperation::Save))
            } else {
                old(store)@.events
            })
        },
        reply matches PrimaryReply::Unreachable(error) ==> {
            &&& final(store)@.degraded
            &&& final(store)@.dirty.contains_key(state.job_id@)
            &&& final(store)@.dirty[state.job_id@] == Some(*state)
            &&& old(store)@.degraded ==> final(store)@.events == old(store)@.events.push(
                StoreEventView::RecoveryFailed(StoreOperation::Save, error@),
            )
            &&& !old(store)@.degraded ==> final(store)@.events == old(store)@.events.push(
                StoreEventView::Degraded(StoreOperation::Save, error@),
            ).push(StoreEventView::RecoveryFailed(StoreOperation::Save, error@))
        },
{
    let cleaned = old(store)@.dirty.remove(state.job_id@);
    if forall|job: Seq<char>| old(store)@.dirty.contains_key(job) ==> job == state.job_id@ {
        assert(cleaned =~= Map::<Seq<char>, Option<JobState>>::empty());
    }
    if old(store)@.dirty.contains_key(other) && other != state.job_id@ {
        assert(cleaned.contains_key(other));
    }
}

/// What holds of a save holds of a delete: it cleans its job alone where it was
/// accepted, and is noted and told where it was missed.
pub proof fn law_call_finish_delete(
    store: &mut ResilientStateStore,
    job_id: &str,
    reply: PrimaryReply<()>,
    r: bool,
    other: Seq<char>,
)
    requires
        call_ensures(ResilientStateStore::finish_delete, (store, job_id, reply), r),
    ensures
        r == !(reply is Failed),
        final(store)@.mirror == old(store)@.mirror,
        reply is Failed ==> final(store)@ == old(store)@,
        other != job_id@ ==> final(store)@.dirty.contains_key(other) == old(
            store
        )@.dirty.contains_key(other),
        reply is Done ==> {
            &&& !final(store)@.dirty.contains_key(job_id@)
            &&& (old(store)@.dirty.contains_key(other) && other != job_id@) ==> final(
                store
            )@.degraded == old(store)@.degraded && final(store)@.events == old(store)@.events
            &&& (forall|job: Seq<char>| old(store)@.dirty.contains_key(job) ==> job == job_id@)
                ==> !final(store)@.degraded && final(store)@.events == (if old(store)@.degraded {
                old(store)@.events.push(StoreEventView::Recovered(StoreOperation::Delete))
            } else {
                old(store)@.events
            })
        },
        reply matches PrimaryReply::Unreachable(error) ==> {
            &&& final(store)@.degraded
            &&& final(store)@.dirty.contains_key(job_id@)
            &&& final(store)@.dirty[job_id@] is None
            &&& old(store)@.degraded ==> final(store)@.events == old(store)@.events.push(
                StoreEventView::RecoveryFailed(StoreOperation::Delete, error@),
            )
            &&& !old(store)@.degraded ==> final(store)@.events == old(store)@.events.push(
                StoreEventView::Degraded(StoreOperation::Delete, error@),
            ).push(StoreEventView::RecoveryFailed(StoreOperation::Delete, error@))
        },
{
    let cleaned = old(store)@.dirty.remove(job_id@);
    if forall|job: Seq<char>| old(store)@.dirty.contains_key(job) ==> job == job_id@ {
        assert(cleaned =~= Map::<Seq<char>, Option<JobState>>::empty());
    }
    if old(store)@.dirty.contains_key(other) && other != job_id@ {
        assert(cleaned.contains_key(other));
    }
}

/// A load that the primary store answered gives that answer and mirrors it; the
/// store has recovered where nothing is dirty. Where the primary store cannot
/// be reached, the mirror answers and the store is degraded, which is told
/// once. Any other failure is handed on and changes nothing. What is dirty
/// stays so.
pub proof fn law_call_finish_load(
    store: &mut ResilientStateStore,
    job_id: &str,
    reply: PrimaryReply<Option<JobState>>,
    r: LoadOutcome,
    dirty: Seq<char>,
)
    requires
        call_ensures(ResilientStateStore::finish_load, (store, job_id, reply), r),
    ensures
        final(store)@.dirty == old(store)@.dirty,
        r is PrimaryFailed <==> reply is Failed,
        reply is Failed ==> final(store)@ == old(store)@,
        reply matches PrimaryReply::Done(found) ==> {
            &&& r == LoadOutcome::Found(found)
            &&& found matches Some(state) ==> final(store)@.mirror.contains_key(state.job_id@)
                && final(store)@.mirror[state.job_id@] == state
            &&& found is None ==> !final(store)@.mirror.contains_key(job_id@)
            &&& old(store)@.dirty.contains_key(dirty) ==> final(store)@.degraded == old(
                store
            )@.degraded && final(store)@.events == old(store)@.events
            &&& (forall|job: Seq<char>| !old(store)@.dirty.contains_key(job)) ==> !final(
                store
            )@.degraded && final(store)@.events == (if old(store)@.degraded {
                old(store)@.events.push(StoreEventView::Recovered(StoreOperation::Load))
            } else {
                old(store)@.events
            })
        },
        reply matches PrimaryReply::Unreachable(error) ==> {
            &&& old(store)@.mirror.contains_key(job_id@) ==> r == LoadOutcome::Found(
                Some(old(store)@.mirror[job_id@]),
            )
            &&& !old(store)@.mirror.contains_key(job_id@) ==> r == LoadOutcome::Found(None)
            &&& final(store)@.mirror == old(store)@.mirror
            &&& final(store)@.degraded
            &&& final(store)@.events == (if old(store)@.degraded {
                old(store)@.events
            } else {
                old(store)@.events.push(StoreEventView::Degraded(StoreOperation::Load, error@))
            })
        },
{
    if forall|job: Seq<char>| !old(store)@.dirty.contains_key(job) {
        assert(old(store)@.dirty =~= Map::<Seq<char>, Option<JobState>>::empty());
    }
    if old(store)@.dirty.contains_key(dirty) {
        assert(old(store)@.dirty != Map::<Seq<char>, Option<JobState>>::empty());
    }
}

/// A load is answered without the primary store exactly for a dirty job, with
/// what is dirty of it.
pub proof fn law_call_begin_load(
    store: &ResilientStateStore,
    job_id: &str,
    r: Option<Option<JobState>>,
)
    requires
        call_ensures(ResilientStateStore::begin_load, (store, job_id), r),
    ensures
        r is Some <==> store@.dirty.contains_key(job_id@),
        r matches Some(answer) ==> answer == store@.dirty[job_id@],
{
}

/// The events are handed out once, in their order, and nothing else changes.
pub proof fn law_call_drain(store: &mut ResilientStateStore, r: Vec<StoreEvent>)
    requires
        call_ensures(ResilientStateStore::drain_events, (store,), r),
    ensures
        r@.len() == old(store)@.events.len(),
        forall|i: int| 0 <= i < r@.len() ==> (#[trigger] r@[i])@ == old(store)@.events[i],
        final(store)@.events.len() == 0,
        final(store)@.degraded == old(store)@.degraded,
        final(store)@.mirror == old(store)@.mirror,
        final(store)@.dirty == old(store)@.dirty,
{
    assert forall|i: int| 0 <= i < r@.len() implies (#[trigger] r@[i])@ == old(
        store
    )@.events[i] by {
        assert(event_views(r@)[i] == r@[i]@);
    }
}

} // verus!
