[package]
name = "uplink_core"
version = "0.1.0"
edition = "2021"
publish = false

[dependencies]
uuid = "*"
tokio = { version = "*", features = ["rt-multi-thread", "sync", "time", "macros"] }
futures = "*"
dirs = "*"
