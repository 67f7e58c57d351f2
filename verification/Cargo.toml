[package]
name = "sons_of_liberty"
version = "0.1.0"
edition = "2021"
publish = false

[dependencies]
hex = "0.4"
bitcoin = "*"
serde = { version = "1", features = ["derive"] }
serde_json = "1"
chrono = "0.4"
tokio = { version = "1", features = ["sync", "rt", "rt-multi-thread", "macros"] }
