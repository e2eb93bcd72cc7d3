[package]
name = "redisson-rs"
version = "0.1.0"
edition = "2021"
publish = false

[dependencies]
fred = { version = "=10.1.0", features = ["i-scripts", "subscriber-client"] }
tokio = { version = "=1.54.1", features = ["rt-multi-thread", "macros", "time", "sync"] }
tokio-util = "=0.7.20"
uuid = { version = "=1.29.0", features = ["v4"] }
anyhow = "=1.0.104"
async-trait = "=0.1.92"
parking_lot = "=0.12.5"
serde = { version = "=1.0.229", features = ["derive"] }
tracing = "=0.1.44"
