[package]
name = "galangua_core"
version = "0.1.0"
edition = "2021"
publish = false

[dependencies]
rand = "0.7"
rand_xoshiro = "0.4"
regex = "1"
serde_json = "1"
