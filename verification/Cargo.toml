[package]
name = "z_fubao"
version = "0.1.0"
edition = "2021"
publish = false

[dependencies]
solana-program = "2"
spl-token = "8"

[dev-dependencies]
borsh = "1"
