[package]
name = "uniswap_storage"
version = "0.1.0"
edition = "2021"
publish = false

[dependencies]
alloy-primitives = "*"
futures = "*"
eyre = "*"
async-trait = "*"
