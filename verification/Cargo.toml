[package]
name = "easerx"
version = "0.1.0"
edition = "2021"
publish = false

[dependencies]
tokio = { version = "1", features = ["rt", "sync", "time", "macros"] }
tokio-util = "0.7"
futures-signals = "0.3"
futures-core = "0.3"
pin-project = "1"
