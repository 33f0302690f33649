[package]
name = "polymarket_rate_limit"
version = "0.1.0"
edition = "2021"
publish = false

[dependencies]
governor = "*"
reqwest = { version = "*", default-features = false }
