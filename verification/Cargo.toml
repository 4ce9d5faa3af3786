[package]
name = "schnorr_tokens"
version = "0.1.0"
edition = "2021"
publish = false

[dependencies]
ark-grumpkin = "*"
ark-ec = "*"
ark-ff = "*"
ark-serialize = "*"
ark-std = "*"
blake2 = "0.10"
rand = "0.8"
