[package]
name = "kameo"
version = "0.1.0"
edition = "2021"
publish = false

[dependencies]
tokio = { version = "1", features = ["macros", "rt", "rt-multi-thread", "sync", "time"] }
futures = "0.3"
dyn-clone = "1"
serde = { version = "1", features = ["derive"] }
metrics = "0.24"
tracing = "0.1"
