[package]
name = "donation_ledger"
version = "0.1.0"
edition = "2021"
publish = false

[dependencies]
near-sdk = { version = "=5.29.1", features = ["unit-testing"] }
near-contract-standards = "=5.29.1"
