[package]
name = "key_derives"
version = "0.1.0"
edition = "2021"
publish = false

[dependencies]
curve25519-dalek = "=4.1.3"
sha3 = "=0.10.9"
zeroize = "=1.9.1"
monero-wallet = "=0.2.0"
