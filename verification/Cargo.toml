[package]
name = "contract"
version = "0.1.0"
edition = "2021"
publish = false

[dependencies]
borsh = { version = "=1.8.1", features = ["derive"] }
serde = { version = "=1.0.229", features = ["derive"] }
hyli-contract-sdk = { version = "=0.15.0", features = ["risc0"] }
risc0-zkvm = { version = "3.0", default-features = false }
