[package]
name = "token_ledger"
version = "0.1.0"
edition = "2021"
publish = false

[dependencies]
clap = "=4.5.61"
solana-program = "=1.18.26"
solana-sdk = "=1.18.26"
