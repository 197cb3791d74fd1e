[package]
name = "subspace_coordination"
version = "0.1.0"
edition = "2021"
publish = false

[dependencies]
anyhow = "1"
atomic = "0.5"
futures = "0.3"
parking_lot = "0.12"
rayon = "1"
tokio = { version = "1", features = ["macros", "rt-multi-thread", "sync", "time"] }
tracing = "0.1"
