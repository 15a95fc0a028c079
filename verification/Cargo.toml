[package]
name = "winternitz"
version = "0.1.0"
edition = "2021"
publish = false

[dependencies]
arraystring = "0.3"
bip32 = "0.5"
fd_bs58 = "*"
hex = "0.4"
rand = "0.8"
solana-nostd-keccak = "*"
solana-nostd-sha256 = "*"
