[package]
name = "fee_ticker"
version = "0.1.0"
edition = "2021"
publish = false

[dependencies]
num = "0.4"
bigdecimal = "0.4"
futures = "0.3"
tokio = { version = "1", features = ["rt", "time"] }
anyhow = "1"
