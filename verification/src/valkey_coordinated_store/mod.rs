//! The state that schedulers share through Valkey: its keys, its fields, and
//! the commands that read and change it.
pub mod codec;
pub mod inflight_commands;
pub mod keys;
pub mod scripts;
pub mod state_commands;
