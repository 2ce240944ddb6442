[package]
name = "dex_v4"
version = "0.1.0"
edition = "2021"
publish = false

[dependencies]
solana-program = "=2.3.0"
spl-token = "=8.0.0"
mpl-token-metadata = "=5.1.1"
thiserror = "=1.0.69"
