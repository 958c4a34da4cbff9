[package]
name = "t6615"
version = "0.1.0"
edition = "2021"
publish = false

[dependencies]
chrono = "*"
serialport = { version = "*", default-features = false }
