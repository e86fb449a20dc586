[package]
name = "ws_transport"
version = "0.1.0"
edition = "2021"
publish = false

[dependencies]
futures = "=0.3.34"
jsonrpsee = { version = "=0.1.0", default-features = false }
serde = { version = "=1.0.229", features = ["std", "derive"] }
serde_json = "=1.0.154"
tungstenite = "=0.10.1"
url = "=2.5.8"
