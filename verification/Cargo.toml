[package]
name = "coinjoin"
version = "0.1.0"
edition = "2021"
publish = false

[dependencies]
rustc-hex = "=2.1.0"
libsecp256k1 = "=0.7.2"
aes-gcm = "=0.11.1"
sha3 = "=0.12.0"
sha2 = "=0.9.9"
