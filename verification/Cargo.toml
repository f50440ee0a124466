[package]
name = "vanity_search"
version = "0.1.0"
edition = "2021"
publish = false

[dependencies]
colored = "1"
rand = "0.7"
regex = "1"
secp256k1 = "0.15"
sha3 = "0.8"
