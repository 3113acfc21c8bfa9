[package]
name = "engine_session"
version = "0.1.0"
edition = "2021"
publish = false

[dependencies]
iced = { version = "0.10", default-features = false, features = ["tokio"] }
tokio = { version = "1", features = ["io-util", "macros", "process", "rt", "sync", "time"] }
