[package]
name = "alvr_client_stream"
version = "0.1.0"
edition = "2021"
publish = false

[dependencies]
bincode = "1.3"
bytes = "1"
futures = "0.3"
jni = "0.19"
once_cell = "1"
parking_lot = "0.11"
reed-solomon-erasure = "4.0"
serde = { version = "1", features = ["derive"] }
serde_json = "1"
tokio = { version = "1", features = ["rt-multi-thread", "sync", "time", "macros", "net"] }
