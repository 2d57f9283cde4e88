[package]
name = "matrix_system"
version = "0.1.0"
edition = "2021"
publish = false

[dependencies]
anchor-lang = "0.29.0"
anchor-spl = { version = "0.29.0", default-features = false, features = ["token", "associated_token"] }
spl-token = { version = "4.0.0", features = ["no-entrypoint"] }
chainlink_solana = "1.0.0"
solana-security-txt = "1.1.1"
