[package]
name = "token22_swap"
version = "0.1.0"
edition = "2021"
publish = false

[dependencies]
anchor-lang = "=0.31.2"
anchor-spl = "=0.31.2"
spl-token-2022 = { version = "=6.0.0", features = ["no-entrypoint"] }
