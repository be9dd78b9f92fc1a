//! Deciding when a job runs, and what becomes of its runs.
pub mod boundaries;
pub mod control;
pub mod coordinated;
pub mod coordinated_execution;
pub mod engine;
pub mod execution;
pub mod fixed_clocks;
pub mod grouped_cron;
pub mod interval_phase;
pub mod legacy;
pub mod overlap;
pub mod runtime;
pub mod runtime_events;
pub mod state_loading;
pub mod time_window_alignment;
pub mod trigger;
pub mod trigger_math;
pub mod windowed_interval;
