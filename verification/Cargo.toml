[package]
name = "solana_trading_bot"
version = "0.1.0"
edition = "2021"
publish = false

[dependencies]
ring = "=0.17.14"
serde = { version = "=1.0.229", features = ["derive"] }
serde_json = "=1.0.151"
reqwest = { version = "*", default-features = false, features = ["blocking", "json", "rustls-tls"] }
