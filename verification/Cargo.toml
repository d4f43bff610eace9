[package]
name = "leap_mcp"
version = "0.1.0"
edition = "2021"
publish = false

[dependencies]
anyhow = "1"
serde = { version = "1", features = ["derive"] }
serde_json = { version = "1", features = ["preserve_order"] }
tokio = { version = "1", features = ["io-std", "io-util", "rt-multi-thread", "macros"] }
tracing = "0.1"
tracing-subscriber = "0.3"
