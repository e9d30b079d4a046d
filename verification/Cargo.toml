[package]
name = "waytab"
version = "0.1.0"
edition = "2021"
publish = false

[dependencies]
anyhow = "1"
futures-util = "0.3"
serde_json = "1"
tokio = { version = "1", features = ["sync", "rt-multi-thread", "macros", "net", "time"] }
tokio-tungstenite = "*"
