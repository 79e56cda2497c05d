[package]
name = "websocket_bridge"
version = "0.1.0"
edition = "2021"
publish = false

[dependencies]
tokio = { version = "1", features = ["net", "rt", "rt-multi-thread", "io-util", "sync", "macros", "time"] }
tokio-tungstenite = { version = "0.21" }
futures-util = { version = "0.3" }
log = { version = "0.4" }
env_logger = { version = "0.10" }
clap = { version = "4" }
