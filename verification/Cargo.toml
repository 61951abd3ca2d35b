[package]
name = "rings_core"
version = "0.1.0"
edition = "2021"
publish = false

[dependencies]
anyhow = "=1.0.104"
async-lock = "=2.8.0"
async-trait = "=0.1.92"
bytes = "=1.12.1"
futures = "=0.3.34"
serde_json = "=1.0.154"
tracing = "=0.1.44"
uuid = { version = "=1.29.0", features = ["v4"] }
web3 = { version = "=0.18.0", default-features = false }
webrtc = "=0.6.0"

[dev-dependencies]
tokio = { version = "=1.54.1", features = ["rt", "rt-multi-thread", "sync"] }
