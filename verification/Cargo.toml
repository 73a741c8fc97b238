[package]
name = "actor_util"
version = "0.1.0"
edition = "2021"
publish = false

[dependencies]
anyhow = "1"
base64 = "=0.13.1"
ed25519-dalek = "=1.0.1"
rmp = "=0.8.9"
serde = { version = "1", features = ["derive"] }
tea-codec = "=0.1.1"
url = "2"
wascc-actor = "=0.7.4"
wascc-codec = "0.7"
