[package]
name = "opcua_runtime"
version = "0.1.0"
edition = "2021"
publish = false

[dependencies]
chrono = "0.4"
hashbrown = "0.15"
tokio = { version = "1", features = ["rt", "time", "sync", "macros"] }
serde = { version = "1", features = ["derive"] }
syn = { version = "2", features = ["full"] }
quote = "1"
proc-macro2 = "1"
futures = "0.3"
tokio-util = "0.7"
arc-swap = "1"
