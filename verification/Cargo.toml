[package]
name = "prediction_market"
version = "0.1.0"
edition = "2021"
publish = false

[dependencies]
anchor-lang = "=1.2.1"
anchor-spl = "=1.2.1"
pyth-solana-receiver-sdk = "=2.0.0"
solana-sha256-hasher = { version = "=3.1.0", features = ["sha2"] }
num-traits = "=0.2.19"
num-derive = "=0.4.2"
