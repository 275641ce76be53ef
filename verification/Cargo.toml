[package]
name = "auth_gateway"
version = "0.1.0"
edition = "2021"
publish = false

[dependencies]
config = "0.11"
reqwest = { version = "0.12", default-features = false }
tokio = { version = "1", features = ["rt-multi-thread", "macros", "time", "sync"] }
