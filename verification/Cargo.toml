[package]
name = "mcp_bridge"
version = "0.1.0"
edition = "2021"
publish = false

[dependencies]
serde_json = "1"
tokio-tungstenite = "*"
addin1c = "*"
tokio = { version = "1", features = ["rt-multi-thread", "sync", "time", "net", "macros"] }
hyper = { version = "0.14", features = ["server", "http1", "tcp", "stream"] }
bytes = "1"
futures-util = "0.3"
