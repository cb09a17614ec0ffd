[package]
name = "user_backend"
version = "0.1.0"
edition = "2021"
publish = false

[dependencies]
validator = "0.18"
axum = "0.7"
tokio = { version = "1", features = ["full"] }
mongodb = "3"
serde = { version = "1", features = ["derive"] }
serde_json = "1"
clap = { version = "4", features = ["derive", "env"] }
dotenvy = "0.15"
anyhow = "1"
tower = { version = "0.4", features = ["buffer", "limit", "timeout", "util"] }
tower-http = { version = "0.5", features = ["cors", "fs", "trace"] }
tracing = "0.1"
tracing-appender = "0.2"
tracing-subscriber = { version = "0.3", features = ["env-filter"] }
tokio-stream = "0.1"
