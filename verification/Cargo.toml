[package]
name = "boop"
version = "0.1.0"
edition = "2021"
publish = false

[dependencies]
anyhow = "1"
async-std = { version = "1", features = ["attributes"] }
winapi = { version = "0.3", features = ["combaseapi", "guiddef", "objbase", "sapi51", "winerror"] }
wio = "0.2"
