[package]
name = "gridbot"
version = "0.1.0"
edition = "2021"
publish = false

[dependencies]
solana-program = "2.2"
solana-sdk = "2.2"
serde = { version = "1", features = ["derive"] }
serde_json = "1"
bincode = "1.3"
tokio = { version = "1", features = ["macros", "rt-multi-thread", "time"] }
anyhow = "1"
dotenv = "0.15"
