[package]
name = "qrpg"
version = "0.1.0"
edition = "2021"
publish = false

[dependencies]
rand = "0.7"
console = "*"
serde = { version = "1", features = ["derive"] }
serde_json = "1"
sqlite = "*"
