[package]
name = "podpingd"
version = "0.1.0"
edition = "2021"
publish = false

[dependencies]
serde_json = "1"
chrono = "0.4"
color-eyre = "0.6"
reqwest = { version = "0.12", default-features = false }
rusty-s3 = "*"
thiserror = "*"
tokio = { version = "1", features = ["rt-multi-thread", "macros", "sync", "time"] }
tracing = "0.1"
tracing-subscriber = "0.3"
url = "2"
