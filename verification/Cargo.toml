[package]
name = "yapping_server"
version = "0.1.0"
edition = "2021"
publish = false

[dependencies]
tokio = { version = "1", features = ["sync", "rt-multi-thread", "macros", "net", "time"] }
futures = "0.3"
tokio-tungstenite = "0.24"
mongodb = "3"
