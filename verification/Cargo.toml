[package]
name = "clock-sync"
version = "0.1.0"
edition = "2021"
publish = false

[dependencies]
arc-swap = "=1.9.3"
bytes = "=1.12.1"
crossbeam-channel = "=0.5.17"
log = "=0.4.35"
solana-pubkey = "=4.4.0"
tokio = { version = "=1.54.1", default-features = false, features = ["sync"] }
