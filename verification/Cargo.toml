[package]
name = "swap_chain"
version = "0.1.0"
edition = "2021"
publish = false

[dependencies]
anchor-lang = "=0.29.0"
anchor-spl = "=0.29.0"
raydium-amm-v3 = { version = "=0.1.0", features = ["cpi"] }
solana-program = "=1.16.25"
spl-memo = "=4.0.0"
spl-token = "=4.0.0"
