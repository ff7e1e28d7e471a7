[package]
name = "codex-scheduling"
version = "0.1.0"
edition = "2021"
publish = false

[dependencies]
chrono = { version = "=0.4.45", features = ["serde"] }
cron = "=0.17.0"
uuid = { version = "=1.29.0", features = ["v4", "v7"] }
serde = { version = "=1.0.229", features = ["derive"] }
serde_json = "=1.0.154"
tokio = { version = "=1.54.1", features = ["rt", "sync", "time", "process", "io-util", "macros"] }
