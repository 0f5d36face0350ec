[package]
name = "synapse_admin"
version = "0.1.0"
edition = "2021"
publish = false

[dependencies]
hmac = "*"
sha1 = "*"
validator = "*"
serde = { version = "*", features = ["derive"] }
serde_json = "*"
url = { version = "*", features = ["serde"] }
anyhow = "*"
