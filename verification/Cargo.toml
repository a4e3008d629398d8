[package]
name = "feature_probe"
version = "0.1.0"
edition = "2021"
publish = false

[dependencies]
base64 = "0.13"
url = "2"
serde = { version = "1", features = ["derive"] }
serde_json = "1"
reqwest = { version = "0.11", default-features = false }
tokio = { version = "1", features = ["rt-multi-thread", "time", "sync", "macros"] }
socketio-rs = "*"
futures-util = "0.3"
headers = "0.3"
http = "0.2"
thiserror = "1"
lazy_static = "1"
parking_lot = "0.12"
