//! Scheduling for a single logical job at a time: when it runs, what becomes of
//! its runs, and what is remembered between them.
//!
//! Everything here decides and computes; nothing waits, spawns or talks to a
//! server. A program that runs jobs reads clocks and stores, hands what it read
//! to this library, and does what the library says.
//!
//! - [`model`] describes a job: its schedule, its policies, its time window and
//!   its state.
//! - [`scheduler`] decides when a job is due, what is triggered, skipped, queued
//!   or dropped, and holds the loop of a running job as a machine.
//! - [`store`], [`coordinated_store`] and [`execution_guard`] describe where
//!   states are kept, how schedulers share one, and what keeps two of them from
//!   running the same occurrence.
//! - the modules whose names begin with `valkey` hold the keys, the commands and
//!   the answers of a Valkey server.
//! - [`observer`] says what a scheduler tells about its work, and how that reads
//!   in a log.
pub mod coordinated_store;
pub mod error;
pub mod execution_guard;
pub mod guarded_runner;
pub mod model;
pub mod observer;
pub mod scheduler;
pub mod store;
pub mod text;
pub mod text_map;
pub mod time;
pub mod timestamp;
pub mod valkey_coordinated_store;
pub mod valkey_execution_support;
pub mod valkey_guard;
pub mod valkey_runtime;
pub mod valkey_store;
pub mod zone;

pub use coordinated_store::{
    CoordinatedClaim, CoordinatedCompletion, CoordinatedLeaseConfig, CoordinatedPendingTrigger,
    CoordinatedRuntimeState, NoopCoordinatedStateStore,
};
pub use error::{
    ExecutionGuardError, ExecutionGuardErrorKind, InvalidJobError, InvalidJobKind, SchedulerError,
    StoreError, StoreErrorKind, TaskJoinError, TaskJoinErrorKind,
};
pub use execution_guard::{
    ExecutionGuardAcquire, ExecutionGuardRenewal, ExecutionGuardScope, ExecutionLease,
    ExecutionSlot, NoopExecutionGuard,
};
pub use guarded_runner::GuardedRunResult;
pub use model::cron_schedule::CronSchedule;
pub use model::job::{Job, RunContext, TriggerSource};
pub use model::schedule::{
    GroupedCronSchedule, GroupedIntervalSchedule, IntervalWindow, MissedRunPolicy, OverlapPolicy,
    Schedule, SchedulerConfig, StaggeredIntervalSchedule, TerminalStatePolicy,
    TimeWindowAlignment, WindowedIntervalSchedule,
};
pub use model::state::{JobState, RunRecord, RunStatus, SchedulerReport};
pub use model::time_window::{JobTimeWindow, RunSkipReason, TimeWindowSegment};
pub use observer::{
    LogObserver, NoopObserver, PauseScope, SchedulerEvent, SchedulerStopReason, StateLoadSource,
};
pub use store::{
    InMemoryStateStore, ResilientStateStore, ResilientStoreError, StoreEvent, StoreOperation,
};
pub use time::{Duration, TimeOfDay, UtcTime, Weekday};
pub use valkey_guard::{ValkeyExecutionGuardError, ValkeyLeaseConfig};
pub use valkey_runtime::ValkeyRecoveryConfig;
pub use valkey_store::ValkeyStoreError;
pub use zone::Timezone;
