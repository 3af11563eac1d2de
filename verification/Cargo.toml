[package]
name = "liquid_staking_token"
version = "0.1.0"
edition = "2021"
publish = false

[dependencies]
pinocchio = "=0.11.2"
pinocchio-system = "=0.6.1"
pinocchio-token = "=0.7.0"
solana-address = { version = "=2.9.0", features = ["curve25519"] }
