[package]
name = "nft_validator"
version = "0.1.0"
edition = "2021"
publish = false

[dependencies]
blake2b-rs = "*"
ckb-std = { version = "*", default-features = false, features = ["ckb-types"] }

[dev-dependencies]
rand = "0.8"
