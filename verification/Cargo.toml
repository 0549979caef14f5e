[package]
name = "warp_helm"
version = "0.1.0"
edition = "2021"
publish = false

[dependencies]
anyhow = "1"
async-channel = "2"
async-stream = "0.3"
axum = "0.8"
base64 = "0.22"
futures = "0.3"
http = "1"
log = "0.4"
parking_lot = "0.12"
prost-types = "0.13"
reqwest = { version = "0.12", default-features = false, features = ["json", "stream"] }
serde = { version = "1", features = ["derive"] }
serde_json = "1"
tokio = { version = "1", features = ["net", "rt", "rt-multi-thread", "sync", "time"] }
tracing = "0.1"
url = "2"
uuid = { version = "1", features = ["v4"] }
