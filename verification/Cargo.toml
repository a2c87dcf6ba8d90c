[package]
name = "serenity_gateway"
version = "0.1.0"
edition = "2021"
publish = false

[dependencies]
serde_json = "=0.8.6"
websocket = { version = "=0.27.1", default-features = false, features = ["sync"] }
