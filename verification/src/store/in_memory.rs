//! A store that keeps the states of jobs in memory.
use vstd::prelude::*;
use crate::model::state::JobState;
use crate::text_map::TextMap;

verus! {

/// The states of jobs, by job id.
#[derive(Debug)]
pub struct InMemoryStateStore {
    states: TextMap<JobState>,
}

impl View for InMemoryStateStore {
    type V = Map<Seq<char>, JobState>;

    closed spec fn view(&self) -> Map<Seq<char>, JobState> {
        self.states@
    }
}

impl Default for InMemoryStateStore {
    fn default() -> (r: Self)
        ensures
            r@ == Map::<Seq<char>, JobState>::empty(),
    {
        InMemoryStateStore { states: TextMap::new() }
    }
}

impl InMemoryStateStore {
    pub fn new() -> (r: Self)
        ensures
            r@ == Map::<Seq<char>, JobState>::empty(),
    {
        InMemoryStateStore { states: TextMap::new() }
    }

    /// A copy of the state that was saved last for a job.
    pub fn load(&self, job_id: &str) -> (r: Option<JobState>)
        ensures
            r == stored(self@, job_id@),
    {
        match self.states.get(job_id) {
            Some(state) => Some(state.clone()),
            None => None,
        }
    }

    /// Keeps a copy of a state, in place of the one that was kept for its job.
    pub fn save(&mut self, state: &JobState)
        ensures
            final(self)@ == old(self)@.insert(state.job_id@, *state),
    {
        self.states.insert(state.job_id.as_str(), state.clone());
    }

    /// Drops the state of a job.
    pub fn delete(&mut self, job_id: &str)
        ensures
            final(self)@ == old(self)@.remove(job_id@),
    {
        let _ = self.states.remove(job_id);
    }
}

/// The state that is kept for a job.
pub open spec fn stored(states: Map<Seq<char>, JobState>, job_id: Seq<char>) -> Option<JobState> {
    if states.contains_key(job_id) {
        Some(states[job_id])
    } else {
        None
    }
}

/// A load gives back what was saved last for the job, and a save for one job
/// leaves the states of the others alone.
pub proof fn law_load_after_save(
    states: Map<Seq<char>, JobState>,
    state: JobState,
    other: Seq<char>,
)
    ensures
        stored(states.insert(state.job_id@, state), state.job_id@) == Some(state),
        other != state.job_id@ ==> stored(states.insert(state.job_id@, state), other) == stored(
            states,
            other,
        ),
{
}

/// A load after a delete gives nothing, and a delete for one job leaves the
/// states of the others alone.
pub proof fn law_load_after_delete(
    states: Map<Seq<char>, JobState>,
    job_id: Seq<char>,
    other: Seq<char>,
)
    ensures
        stored(states.remove(job_id), job_id) is None,
        other != job_id ==> stored(states.remove(job_id), other) == stored(states, other),
{
}

/// A load after a save gives the state that was saved, for its own job; the
/// other jobs keep what they had.
pub proof fn law_call_save(
    store: &mut InMemoryStateStore,
    state: &JobState,
    job_id: &str,
    before: Option<JobState>,
    after: Option<JobState>,
)
    requires
        call_ensures(InMemoryStateStore::save, (store, state), ()),
        call_ensures(InMemoryStateStore::load, (&*old(store), job_id), before),
        call_ensures(InMemoryStateStore::load, (&*final(store), job_id), after),
    ensures
        job_id@ == state.job_id@ ==> after == Some(*state),
        job_id@ != state.job_id@ ==> after == before,
{
}

/// A load after a delete gives nothing of the job that was deleted; the other
/// jobs keep what they had.
pub proof fn law_call_delete(
    store: &mut InMemoryStateStore,
    deleted: &str,
    job_id: &str,
    before: Option<JobState>,
    after: Option<JobState>,
)
    requires
        call_ensures(InMemoryStateStore::delete, (store, deleted), ()),
        call_ensures(InMemoryStateStore::load, (&*old(store), job_id), before),
        call_ensures(InMemoryStateStore::load, (&*final(store), job_id), after),
    ensures
        job_id@ == deleted@ ==> after is None,
        job_id@ != deleted@ ==> after == before,
{
}

} // verus!
