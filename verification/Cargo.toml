[package]
name = "flight_ingest"
version = "0.1.0"
edition = "2021"
publish = false

[dependencies]
arrow-ipc = "*"
arrow-schema = "*"
arrow-array = "*"
arrow-flight = "*"
tonic = "*"
tokio = { version = "*", features = ["macros", "rt-multi-thread"] }
futures = "*"
