[package]
name = "archipelago"
version = "0.1.0"
edition = "2021"
publish = false

[dependencies]
serde_json = { version = "1", features = ["preserve_order"] }
uuid = { version = "1", features = ["v4"] }
tokio = { version = "1", features = ["net"] }
tokio-tungstenite = "*"
futures = "0.3"
anyhow = "1"
