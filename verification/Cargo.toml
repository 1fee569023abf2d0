[package]
name = "push_relay"
version = "0.1.0"
edition = "2021"
publish = false

[dependencies]
once_cell = "1"
reqwest = { version = "0.11", features = ["json"] }
serde_json = "1"
tokio = { version = "1", features = ["sync"] }
