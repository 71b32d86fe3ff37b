[package]
name = "autonomous_mm"
version = "0.1.0"
edition = "2021"
publish = false

[dependencies]
sha2 = "0.10"
base64 = "0.22"
serde_json = "1"
solana-sdk = "=4.0.1"
solana-sdk-ids = "*"
solana-system-interface = { version = "*", features = ["bincode"] }
anchor-lang = "0.31"
anchor-spl = "0.31"
