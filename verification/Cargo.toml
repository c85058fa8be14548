[package]
name = "roby"
version = "0.1.0"
edition = "2021"
publish = false

[dependencies]
solana-program = "1.18"
borsh = "0.10"
thiserror = "1"
