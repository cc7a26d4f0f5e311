[package]
name = "ic_backend"
version = "0.1.0"
edition = "2021"
publish = false

[dependencies]
base64 = "*"
candid = "*"
getrandom = { version = "0.2", features = ["custom"] }
hex = "*"
ic-cdk = "*"
ic-cdk-timers = "*"
ic-certification = "*"
ic-stable-structures = "*"
jsonwebtoken-rustcrypto = "*"
serde = { version = "*", features = ["derive"] }
serde_bytes = "*"
serde_json = "*"
sha2 = "0.10"

[dev-dependencies]
rand = "0.8"
rsa = "0.9"
