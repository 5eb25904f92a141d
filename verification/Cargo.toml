[package]
name = "miwear_bridge"
version = "0.1.0"
edition = "2021"
publish = false

[dependencies]
async-channel = "2"
once_cell = "1"
tokio = { version = "1", features = ["rt", "sync", "time", "macros"] }
