[package]
name = "onion_crypto"
version = "0.1.0"
edition = "2021"
publish = false

[dependencies]
aes-gcm = "*"
anyhow = "*"
colored = "*"
