[package]
name = "whatsandra"
version = "0.1.0"
edition = "2021"
publish = false

[dependencies]
rand = "0.8"
hmac = "0.12"
sha2 = "0.10"
base64 = "0.22"
hex = "0.4"
serde = { version = "1", features = ["derive"] }
serde_json = "1"
log = "0.4"
env_logger = "0.11"
