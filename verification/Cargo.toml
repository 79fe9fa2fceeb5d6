[package]
name = "knewsnotifd"
version = "0.1.0"
edition = "2021"
publish = false

[dependencies]
feed-rs = "*"
chrono = "*"
webhook = "*"
reqwest = "*"
tokio = { version = "*", features = ["rt-multi-thread", "macros", "time"] }
log = "*"
env_logger = "*"
anyhow = "*"
