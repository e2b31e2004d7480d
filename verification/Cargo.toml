[package]
name = "forward_market_contract"
version = "0.1.2"
edition = "2021"
publish = false

[dependencies]
bech32 = "0.9"
hex = "0.4"
uuid = "1"
cosmwasm-std = "2"
cosmwasm-schema = "2"
cw-storage-plus = "2"
provwasm-std = "2"
schemars = "0.8"
serde = { version = "1", default-features = false, features = ["derive"] }
thiserror = "1"
