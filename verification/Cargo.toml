[package]
name = "scheduler"
version = "0.4.5"
edition = "2021"
publish = false

[dependencies]
chrono = { version = "0.4", features = ["serde"] }
chrono-tz = "0.10"
cron = "*"
log = "0.4"
redis = { version = "*", features = ["aio", "connection-manager", "script", "tokio-comp"] }
serde = { version = "1", features = ["derive"] }
serde_json = "1"
tokio = { version = "1", features = ["macros", "rt-multi-thread", "sync", "time"] }
