[package]
name = "soroflare"
version = "0.1.0"
edition = "2021"
publish = false

[dependencies]
soroban-ledger-snapshot = "*"
sha2 = "*"
worker = "*"
