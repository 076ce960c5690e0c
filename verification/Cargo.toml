[package]
name = "nuhxboard"
version = "0.6.2"
edition = "2021"
publish = false

[dependencies]
serde = { version = "=1.0.229", features = ["derive"] }
serde_json = "=1.0.154"
confy = "=2.0.0"
home = "=0.5.12"
rdevin = "*"
rdev = "*"
