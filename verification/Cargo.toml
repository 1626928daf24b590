[package]
name = "worker_bridge"
version = "0.1.0"
edition = "2021"
publish = false

[dependencies]
serde_json = "1"
tokio = { version = "1", features = ["io-std", "io-util", "macros", "rt-multi-thread"] }
futures-util = "0.3"
async-tungstenite = { version = "*", features = ["tokio-runtime"] }
reqwest = { version = "*", default-features = false }
