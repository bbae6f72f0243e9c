[package]
name = "parseable_sink"
version = "0.1.0"
edition = "2021"
publish = false

[dependencies]
serde_json = "*"
chrono = "*"
tokio = { version = "*", features = ["sync", "rt", "time", "macros"] }
tokio-stream = "*"
