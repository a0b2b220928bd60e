[package]
name = "fastid"
version = "0.1.0"
edition = "2021"
publish = false

[dependencies]
base62 = "*"
base64 = "*"
uuid = "*"
