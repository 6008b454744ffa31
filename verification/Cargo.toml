[package]
name = "modbus-tcp-client"
version = "0.1.0"
edition = "2021"
publish = false

[dependencies]
thiserror = "2"
tokio = { version = "1", features = ["net", "io-util", "sync", "time", "rt", "macros"] }
