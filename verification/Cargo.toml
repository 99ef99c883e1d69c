[package]
name = "tsyncp"
version = "0.1.0"
edition = "2021"
publish = false

[dependencies]
bytes = "1"
futures = "0.3"
tokio = { version = "1", features = ["full"] }
tokio-util = { version = "0.7", features = ["codec"] }
serde = { version = "1", features = ["derive"] }
serde_json = "1"
bincode = "1.3"
prost = "0.12"
snafu = "0.7"
pin-project = "1"
parking_lot = "0.12"
rkyv = "0.7"
