[package]
name = "baf"
version = "0.1.0"
edition = "2021"
publish = false

[dependencies]
regex = "1"
azalea = "*"
azalea-protocol = "*"
tokio = { version = "1", features = ["time", "sync", "macros", "rt-multi-thread"] }
parking_lot = "0.12"
tracing = "0.1"
