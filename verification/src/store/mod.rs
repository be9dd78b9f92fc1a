//! Where the state of jobs is kept.
use vstd::prelude::*;

pub mod in_memory;
pub mod resilient;

pub use in_memory::InMemoryStateStore;
pub use resilient::ResilientStateStore;

verus! {

/// The errors of a store, of which some mean that it cannot be reached.
pub trait ResilientStoreError {
    /// Whether the store could not be reached.
    fn is_connection_issue(&self) -> bool;
}

#[derive(Debug, Clone, Copy, PartialEq, Eq, Structural)]
pub enum StoreOperation {
    Load,
    Save,
    Delete,
}

/// What happened to a store besides what it was asked for.
#[derive(Debug, Clone, PartialEq, Eq)]
pub enum StoreEvent {
    Degraded { operation: StoreOperation, error: String },
    Recovering { operation: StoreOperation },
    Recovered { operation: StoreOperation },
    RecoveryFailed { operation: StoreOperation, error: String },
    RecoveryConflict { operation: StoreOperation, job_id: String, error: String },
}

/// What a [`StoreEvent`] says.
pub enum StoreEventView {
    Degraded(StoreOperation, Seq<char>),
    Recovering(StoreOperation),
    Recovered(StoreOperation),
    RecoveryFailed(StoreOperation, Seq<char>),
    RecoveryConflict(StoreOperation, Seq<char>, Seq<char>),
}

impl View for StoreEvent {
    type V = StoreEventView;

    open spec fn view(&self) -> StoreEventView {
        match self {
            StoreEvent::Degraded { operation, error } => StoreEventView::Degraded(
                *operation,
                error@,
            ),
            StoreEvent::Recovering { operation } => StoreEventView::Recovering(*operation),
            StoreEvent::Recovered { operation } => StoreEventView::Recovered(*operation),
            StoreEvent::RecoveryFailed { operation, error } => StoreEventView::RecoveryFailed(
                *operation,
                error@,
            ),
            StoreEvent::RecoveryConflict {
                operation,
                job_id,
                error,
            } => StoreEventView::RecoveryConflict(*operation, job_id@, error@),
        }
    }
}

} // verus!
