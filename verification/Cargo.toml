[package]
name = "bip32"
version = "0.1.0"
edition = "2021"
publish = false

[dependencies]
libsecp256k1 = "*"
hmac = "*"
sha2 = "*"
