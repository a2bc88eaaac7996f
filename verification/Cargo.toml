[package]
name = "idl_fetch"
version = "0.1.0"
edition = "2021"
publish = false

[dependencies]
serde_json = "=1.0.151"
solana-sdk = "=1.18.26"
anchor-lang = "=0.29.0"
