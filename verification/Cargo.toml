[package]
name = "ecc"
version = "0.1.0"
edition = "2021"
publish = false

[dependencies]
x25519-dalek = "*"
rand = "*"
