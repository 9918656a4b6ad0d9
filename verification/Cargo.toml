[package]
name = "opifex"
version = "0.1.0"
edition = "2021"
publish = false

[dependencies]
tokio = { version = "1", features = ["sync", "rt-multi-thread", "time"] }
tokio-util = "0.7"
