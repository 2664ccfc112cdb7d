[package]
name = "pioneer_egui"
version = "0.1.0"
edition = "2021"
publish = false

[dependencies]
serde = { version = "*", features = ["derive"] }
serde_json = "*"
tokio = { version = "*", features = ["rt-multi-thread", "net", "time", "sync", "macros"] }
tokio-tungstenite = "*"
futures-util = "*"
