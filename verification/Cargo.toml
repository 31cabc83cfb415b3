[package]
name = "kcp_rust"
version = "0.1.0"
edition = "2021"
publish = false

[dependencies]
log = "0.4"
pin-project = "1"
tokio = { version = "1", features = ["net", "rt", "time", "io-util"] }
