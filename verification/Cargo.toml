[package]
name = "ig_client"
version = "0.1.0"
edition = "2021"
publish = false

[dependencies]
chrono = "=0.4.45"
lightstreamer-rs = "=0.1.6"
tokio = { version = "=1.53.2", features = ["sync", "rt", "time", "macros"] }
futures = "=0.3.34"
