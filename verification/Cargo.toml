[package]
name = "mock_keyvault"
version = "0.1.0"
edition = "2021"
publish = false

[dependencies]
poem = "1"
serde = { version = "1", features = ["derive"] }
serde_json = "1"
thiserror = "1"
tokio = { version = "1", features = ["rt-multi-thread", "macros"] }
tracing-subscriber = "0.3"
