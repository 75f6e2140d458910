[package]
name = "market_stream"
version = "0.1.0"
edition = "2021"
publish = false

[dependencies]
rand = "0.8"
serde_json = "1"
tungstenite = "0.21"
