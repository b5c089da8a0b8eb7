[package]
name = "bundler"
version = "0.1.0"
edition = "2021"
publish = false

[dependencies]
anyhow = "*"
base64 = "=0.23.1"
bs58 = "=0.5.1"
num_cpus = "=1.17.0"
rand = "=0.10.3"
reqwest = { version = "*", features = ["blocking", "json"] }
serde = { version = "*", features = ["derive"] }
serde_json = "=1.0.151"
solana-commitment-config = "=3.0.0"
solana-sdk = "=3.0.0"
solana-system-program = "=3.0.14"
thiserror = "*"
toml = "*"
uuid = { version = "*", features = ["v4"] }
