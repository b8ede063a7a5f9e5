[package]
name = "actix"
version = "0.1.0"
edition = "2021"
publish = false

[dependencies]
futures = "0.1"
libc = "0.2"
tokio-core = "0.1"
tokio-signal = "0.1"
uuid = { version = "1", features = ["v4"] }
