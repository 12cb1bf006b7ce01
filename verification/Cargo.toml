[package]
name = "anchor_client"
version = "0.1.0"
edition = "2021"
publish = false

[dependencies]
anchor-lang = "0.29.0"
solana-sdk = "~1.17"
tokio = { version = "1", features = ["rt-multi-thread", "sync"] }
