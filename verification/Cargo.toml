[package]
name = "solana-charity-donations"
version = "0.1.0"
edition = "2021"
publish = false

[dependencies]
anchor-lang = { version = "=0.32.2", features = ["init-if-needed"] }
anyhow = "=1.0.104"
clap = { version = "=4.6.7", features = ["derive"] }
solana-system-interface = "=1.0.0"
