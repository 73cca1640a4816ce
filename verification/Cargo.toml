[package]
name = "claudio"
version = "0.1.0"
edition = "2021"
publish = false

[dependencies]
uuid = { version = "1", features = ["v4"] }
portable-pty = "*"
tokio = { version = "1", features = ["sync", "rt", "rt-multi-thread", "time", "macros"] }
parking_lot = "0.12"
serde = { version = "1", features = ["derive"] }
serde_json = "1"
serde_yaml = "0.9"
chrono = "0.4"
