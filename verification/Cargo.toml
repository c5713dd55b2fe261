[package]
name = "zeta_abi"
version = "0.1.0"
edition = "2021"
publish = false

[dependencies]
anchor-lang = "0.29.0"
solana-program = "1.17"
