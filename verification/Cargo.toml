[package]
name = "orca_rust_tick_maths"
version = "0.1.0"
edition = "2021"
publish = false

[dependencies]
solana-sdk = { version = "=2.3.1", default-features = false }
solana-rpc-client = { version = "2", default-features = false }

[dev-dependencies]
borsh = "=1.8.1"
