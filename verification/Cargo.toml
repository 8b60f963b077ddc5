[package]
name = "ckb-contract-minitest"
version = "0.1.0"
edition = "2021"
publish = false

[dependencies]
ckb-std = "*"
serde = { version = "1", features = ["derive"] }
