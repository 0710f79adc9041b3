[package]
name = "shredstream"
version = "0.1.0"
edition = "2021"
publish = false

[dependencies]
bs58 = "*"
json = "*"
