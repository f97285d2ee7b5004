[package]
name = "gamma_amm"
version = "0.1.0"
edition = "2021"
publish = false

[dependencies]
anchor-lang = "=1.2.2"
anyhow = "1"
rust_decimal = "=1.43.0"
solana-pubkey = { version = "=4.4.0", features = ["curve25519"] }
spl-token-2022-interface = "=4.0.0"
