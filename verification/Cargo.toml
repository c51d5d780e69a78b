[package]
name = "message_plugins"
version = "0.1.0"
edition = "2021"

[dependencies]
futures = "0.3"
libloading = "0.8"
tokio = { version = "1", features = ["rt", "sync"] }
