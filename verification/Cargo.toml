[package]
name = "vitaminc"
version = "0.1.0"
edition = "2021"
publish = false

[dependencies]
subtle = "2"
zeroize = "1"
rand = "0.8"
rand_chacha = "0.3"
sha2 = "0.10"
