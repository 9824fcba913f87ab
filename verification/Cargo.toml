[package]
name = "fusabi-plugin-runtime"
version = "0.1.0"
edition = "2021"
publish = false

[dependencies]
fusabi-host = "*"
dashmap = "*"
parking_lot = "*"
notify = "*"
serde = { version = "*", features = ["derive"] }
serde_json = "*"
toml = "*"
thiserror = "*"
tracing = "*"
prometheus = "*"
