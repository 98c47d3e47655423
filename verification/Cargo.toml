[package]
name = "kaon"
version = "0.1.0"
edition = "2021"
publish = false

[dependencies]
hyper = { version = "0.14", features = ["client", "http1", "tcp"] }
serde = "1"
serde_json = "1"
tracing = "0.1"
