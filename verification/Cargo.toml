[package]
name = "edms"
version = "0.1.0"
edition = "2021"
publish = false

[dependencies]
anyhow = "=1.0.104"
axum = { version = "=0.7.9", features = ["ws"] }
reqwest = { version = "=0.12.28", default-features = false, features = ["json", "blocking"] }
rusqlite = { version = "=0.31.0", features = ["bundled"] }
serde = { version = "=1.0.229", features = ["derive"] }
serde_json = "=1.0.154"
serde_yaml = "=0.9.34"
thiserror = "=1.0.69"
tokio = { version = "=1.54.1", features = ["full"] }
tokio-util = "=0.7.20"
tower = { version = "=0.4.13", features = ["limit", "buffer", "util"] }
tower-http = { version = "=0.5.2", features = ["cors", "trace"] }
tracing = "=0.1.44"
tracing-subscriber = { version = "=0.3.23", features = ["env-filter"] }
