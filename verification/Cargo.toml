[package]
name = "bls_signatures"
version = "0.1.0"
edition = "2021"
publish = false

[dependencies]
base64 = "0.22"
blstrs = "0.7"
bytemuck = "1"
group = "0.13"
serde = { version = "1", features = ["derive"] }
serde_with = "3"
solana-account = "*"
solana-clock = "*"
solana-epoch-schedule = "*"
solana-genesis-config = "*"
solana-rent = "*"
solana-sdk-ids = "*"
