[package]
name = "rdev_poc"
version = "0.1.0"
edition = "2021"
publish = false

[dependencies]
serde_json = "1"
rdev = "0.5"
enigo = "0.1"
cli-clipboard = "0.4"
chrono = "0.4"
uuid = { version = "1", features = ["v4"] }
simple-websockets = "0.1"
tokio = { version = "1", features = ["rt-multi-thread", "net", "io-util"] }
tokio-tungstenite = "0.21"
futures-util = { version = "0.3", features = ["sink"] }
