[package]
name = "ckb_nft"
version = "0.1.0"
edition = "2021"
publish = false

[dependencies]
blake2b-rs = "*"
ckb-std = "*"
