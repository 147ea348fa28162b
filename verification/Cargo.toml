[package]
name = "porter"
version = "0.1.0"
edition = "2021"
publish = false

[dependencies]
base64 = "*"
infer = "*"
mime_guess = "*"
uuid = { version = "*", features = ["v4"] }
serde_json = "*"
tokio = { version = "*", features = ["full"] }
tokio-tungstenite = "*"
futures-util = "*"
