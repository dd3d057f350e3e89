[package]
name = "anchor_size_core"
version = "0.1.0"
edition = "2021"
publish = false

[dependencies]
anyhow = "*"
chrono = "*"
clap = { version = "*", features = ["derive"] }
serde = { version = "*", features = ["derive"] }
serde_json = "*"
solana-program = "*"
syn = { version = "*", features = ["full"] }
walkdir = "*"
