[package]
name = "open_protocol"
version = "0.1.0"
edition = "2021"
publish = false

[dependencies]
chrono = "0.4"
bytes = "1"
flume = "0.11"
thiserror = "1"
tokio = { version = "1", features = ["net", "io-util", "time", "macros", "rt", "signal"] }
