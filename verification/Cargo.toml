[package]
name = "simard_dashboard"
version = "0.1.0"
edition = "2021"
publish = false

[dependencies]
axum = { version = "0.8", features = ["ws"] }
chrono = "0.4"
dirs = "*"
serde = { version = "1", features = ["derive"] }
serde_json = "1"
tokio = { version = "1", features = ["rt-multi-thread", "macros", "time", "fs", "io-util", "sync"] }
tracing = "0.1"
uuid = { version = "1", features = ["v7"] }
