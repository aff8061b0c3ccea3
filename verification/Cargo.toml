[package]
name = "heng-rs"
version = "0.1.0"
edition = "2021"
publish = false

[dependencies]
futures-channel = { version = "=0.3.34", features = ["sink"] }
futures-util = { version = "=0.3.34", features = ["sink"] }
tokio-executor = "=0.2.0-alpha.6"
tokio-timer = "=0.3.0-alpha.6"
