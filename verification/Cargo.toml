[package]
name = "hotwing_contract"
version = "0.1.0"
edition = "2021"
publish = false

[dependencies]
anchor-lang = "0.30.1"
anchor-spl = "0.30.1"
solana-program = "1.18"
spl-token = "4.0"
spl-token-2022 = "3.0"
