[package]
name = "bahyway"
version = "0.1.0"
edition = "2021"
publish = false

[dependencies]
argon2 = "=0.5.3"
chacha20poly1305 = "=0.10.1"
ed25519-dalek = { version = "=2.2.0", features = ["rand_core"] }
godot = "0.5"
hex = "=0.4.3"
hmac = "=0.12.1"
rand = "=0.8.8"
serde = { version = "=1.0.229", features = ["derive"] }
serde_json = "=1.0.154"
sha3 = "=0.10.9"
sharks = "=0.5.0"
subtle = "=2.6.1"
uuid = { version = "=1.29.0", features = ["v4"] }
