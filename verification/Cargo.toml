[package]
name = "cw721_factory"
version = "0.1.0"
edition = "2021"
publish = false

[dependencies]
cosmwasm-schema = "1.5"
cosmwasm-std = "1.5"
cw2 = "1.1"
cw721 = "0.18"
cw721-base = { version = "0.18", features = ["library"] }
cw-storage-plus = "1.2"
thiserror = "1"
