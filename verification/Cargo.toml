[package]
name = "chat_transport"
version = "0.1.0"
edition = "2021"
publish = false

[dependencies]
http = "1"
tungstenite = "*"
tokio = { version = "1", features = ["sync", "rt", "time"] }
tokio-stream = "0.1"
futures-util = "0.3"
log = "0.4"
scopeguard = "1"

[dev-dependencies]
prost = "*"
