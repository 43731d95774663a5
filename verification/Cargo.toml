[package]
name = "keylight_discovery"
version = "0.1.0"
edition = "2021"
publish = false

[dependencies]
flume = "*"
mdns-sd = "*"
serde = { version = "*", features = ["derive"] }
serde_json = "*"
