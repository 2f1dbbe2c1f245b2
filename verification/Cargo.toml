[package]
name = "moonstone"
version = "0.1.0"
edition = "2021"
publish = false

[dependencies]
chrono = "0.4"
serde = { version = "1", features = ["derive"] }
tokio = { version = "1", features = ["fs", "macros", "rt", "rt-multi-thread", "sync"] }
