[package]
name = "metaplex"
version = "0.1.0"
edition = "2021"
publish = false

[dependencies]
borsh = "*"
solana-program = "*"
spl-token = "*"
spl-token-metadata = "*"
spl-token-vault = "*"
