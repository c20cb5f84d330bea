[package]
name = "oblivious_transfer"
version = "0.1.0"
edition = "2021"
publish = false

[dependencies]
rsa = "0.8"
rand = "0.8"
