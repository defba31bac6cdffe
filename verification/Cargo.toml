[package]
name = "cpswap"
version = "0.1.0"
edition = "2021"
publish = false

[dependencies]
console = "=0.16.6"
dialoguer = "=0.12.0"
solana-program = "=5.1.0"
solana-sdk = "=5.0.0"
solana-system-interface = { version = "=3.3.0", features = ["bincode"] }
