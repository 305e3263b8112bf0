[package]
name = "sovtoken"
version = "0.1.0"
edition = "2021"
publish = false

[dependencies]
bs58 = "*"
sha2 = "*"
libc = "*"
serde_json = "*"
