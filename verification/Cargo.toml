[package]
name = "dispute_resolution"
version = "0.1.0"
edition = "2021"
publish = false

[dependencies]
anchor-lang = "=1.2.2"
anchor-spl = { version = "=1.2.2", default-features = false, features = ["token", "solana-v3"] }
metaplex-token-metadata = "=0.0.1"
solana-program = "~1.10"
