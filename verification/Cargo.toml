[package]
name = "tocket"
version = "0.2.0"
edition = "2021"
publish = false

[dependencies]
bytes = "1"
crc32fast = "1"
futures = "0.3"
parking_lot = "0.12"
redis = { version = "*", default-features = false }
thiserror = "1"
time = "0.3"
tokio = { version = "1", features = ["net", "sync", "rt", "macros"] }
tokio-util = { version = "0.7", features = ["codec", "net"] }
tracing = "0.1"

[dev-dependencies]
borsh = "1"
