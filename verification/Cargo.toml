[package]
name = "ledger_crypto"
version = "0.1.0"
edition = "2021"
publish = false

[dependencies]
ledger-transport = "*"
ledger-zondax-generic = "*"
zx-bip44 = "*"
