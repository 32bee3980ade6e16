[package]
name = "ecies_group"
version = "0.1.0"
edition = "2021"
publish = false

[dependencies]
fastcrypto = { version = "=0.1.11", features = ["aes"] }
rand = "0.8"
bcs = "=0.2.1"
serde = "*"
typenum = "*"
zeroize = "*"
