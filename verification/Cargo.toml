[package]
name = "macro_recorder"
version = "0.1.0"
edition = "2021"
publish = false

[dependencies]
mki = "*"
mouce = "*"
serde = { version = "1", features = ["derive"] }
serde_json = "1"
