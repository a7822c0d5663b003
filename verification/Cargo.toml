[package]
name = "cw721_minter"
version = "0.1.0"
edition = "2021"
publish = false

[dependencies]
abstract-cw-plus-interface = "=3.0.0"
abstract-cw20 = "=3.0.0"
cosmwasm-schema = "1.5"
cosmwasm-std = "1.5"
cw-orch = "0.24"
cw-storage-plus = "1.2"
cw-utils = "1.0"
cw721 = "0.18"
cw721-base = "0.18"
schemars = "0.8"
serde = { version = "1", features = ["derive"] }
thiserror = "1"
