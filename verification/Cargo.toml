[package]
name = "vol_weighted_staking"
version = "0.1.0"
edition = "2021"
publish = false

[dependencies]
anchor-lang = "=0.30.1"
pyth-sdk = "=0.8.0"
pyth-sdk-solana = "=0.10.1"
