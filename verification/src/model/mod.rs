pub mod cron_schedule;
pub mod job;
pub mod schedule;
pub mod state;
pub mod time_window;
