[package]
name = "utcnow"
version = "0.1.0"
edition = "2021"
publish = false

[dependencies]
rustix = { version = "*", features = ["time"] }
serde = "*"
serde_json = "*"
