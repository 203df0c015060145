[package]
name = "short_msg"
version = "0.1.0"
edition = "2021"
publish = false

[dependencies]
bincode = "2"
chrono = { version = "0.4", default-features = false, features = ["std"] }
num-derive = "0.4"
num-traits = "0.2"
