[package]
name = "starknet_declaration"
version = "0.1.0"
edition = "2021"
publish = false

[dependencies]
sha3 = "=0.12.0"
starknet-rust-crypto = "=0.20.1"
starknet-rust-providers = "=0.20.1"
starknet-rust-signers = "=0.20.1"
starknet-types-core = "=0.2.4"
