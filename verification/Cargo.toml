[package]
name = "token_msg"
version = "0.1.0"
edition = "2021"
publish = false

[dependencies]
cosmwasm-schema = "1.5"
cosmwasm-std = "1.5"
cw20 = "1.1"
schemars = "0.8"
serde = { version = "1.0", features = ["derive"] }
