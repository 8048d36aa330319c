[package]
name = "pda_auth"
version = "0.1.0"
edition = "2021"
publish = false

[dependencies]
solana-program = "=1.18.26"
solana-sdk = "=1.18.26"
home = "0.5"
