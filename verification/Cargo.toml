[package]
name = "mnemonic_seed"
version = "0.1.0"
edition = "2021"
publish = false

[dependencies]
base58 = "0.2"
bitcoin = "*"
hex = "0.4"
pbkdf2 = "0.12"
rand = "0.8"
ripemd = "0.1"
secp256k1 = "*"
sha2 = "0.10"
