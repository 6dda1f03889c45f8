[package]
name = "peks"
version = "0.1.0"
edition = "2021"
publish = false

[dependencies]
paired = "*"
fff = "*"
groupy = "*"
rand_core = { version = "0.5", features = ["getrandom"] }
serde_json = "1"
sha2 = "0.10"
