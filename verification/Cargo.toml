[package]
name = "tanuki"
version = "0.1.0"
edition = "2021"
publish = false

[dependencies]
heck = "*"
chrono = "*"
serde = { version = "*", features = ["derive"] }
serde_json = "*"
thiserror = "*"
tokio = { version = "*", features = ["rt-multi-thread", "macros", "sync", "time", "net"] }
futures = "*"
tokio-tungstenite = "*"
btleplug = "*"
mqtt-endpoint-tokio = "*"
mqtt-protocol-core = "*"
