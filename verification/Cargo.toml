[package]
name = "heatpump"
version = "0.1.0"
edition = "2021"
publish = false

[dependencies]
tokio = { version = "*", features = ["rt", "macros", "io-std", "io-util", "sync", "time"] }
tokio-modbus = "*"
tokio-serial = "*"
