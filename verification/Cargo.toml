[package]
name = "txtool"
version = "0.1.0"
edition = "2021"
publish = false

[dependencies]
bitcoin = "0.14"
secp256k1 = "0.11"
ed25519-dalek = "0.9"
curve25519-dalek = "1"
sha2 = "0.8"
rand = "0.6"
