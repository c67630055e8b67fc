[package]
name = "forced_exit_requests"
version = "0.1.0"
edition = "2021"
publish = false

[dependencies]
anyhow = "1"
chrono = "0.4"
hex = "0.4"
num = "0.4"
tokio = { version = "1", features = ["time"] }
