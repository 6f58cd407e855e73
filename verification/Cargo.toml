[package]
name = "solpay_codes"
version = "0.1.0"
edition = "2021"
publish = false

[dependencies]
solana-program = "*"
thiserror = "*"

[dev-dependencies]
borsh = "*"
