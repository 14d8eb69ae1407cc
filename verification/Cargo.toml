[package]
name = "hand_game"
version = "0.1.0"
edition = "2021"
publish = false

[dependencies]
hex = "=0.4.3"
cosmwasm-std = "=1.5.11"
cosmwasm-storage = "=1.5.2"
serde = { version = "=1.0.229", features = ["derive"] }
