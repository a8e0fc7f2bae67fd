[package]
name = "watch_bridge"
version = "0.1.0"
edition = "2021"
publish = false

[dependencies]
notify = "*"
tokio = { version = "*", default-features = false, features = ["sync"] }
tracing = "*"

[dev-dependencies]
tempfile = "*"
