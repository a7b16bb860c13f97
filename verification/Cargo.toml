[package]
name = "public_commitment_fund"
version = "0.1.0"
edition = "2021"
publish = false

[dependencies]
sha2 = "0.10"
