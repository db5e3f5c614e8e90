[package]
name = "nutek-cipher-lib"
version = "0.1.0"
edition = "2021"
publish = false

[dependencies]
aes-gcm-siv = { version = "0.11", default-features = false, features = ["aes", "alloc"] }
