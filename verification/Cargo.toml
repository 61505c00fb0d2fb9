[package]
name = "forty_five_bot"
version = "0.1.0"
edition = "2021"
publish = false

[dependencies]
hmac-sha256 = "*"
constant_time_eq = "*"
hex = "*"
rand = "*"
serde = { version = "*", features = ["derive"] }
serde_json = "*"
