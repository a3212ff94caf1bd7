[package]
name = "order_feed"
version = "0.1.0"
edition = "2021"
publish = false

[dependencies]
futures-util = "0.3"
rand = "0.8"
serde = { version = "1", features = ["derive"] }
serde_json = "1"
tokio = { version = "1", features = ["macros", "rt-multi-thread", "time"] }
tokio-tungstenite = "0.21"
uuid = { version = "1", features = ["v4"] }
