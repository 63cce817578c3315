[package]
name = "exponent_amm"
version = "0.1.0"
edition = "2021"
publish = false

[dependencies]
anchor-lang = "=1.2.2"
anyhow = "=1.0.104"
bytemuck = "=1.25.2"
exponent-time-curve = "=0.1.0"
lazy_static = "=1.5.1"
rust_decimal = "=1.43.0"
solana-address-lookup-table-interface = { version = "*", features = ["bincode", "bytemuck"] }
spl-associated-token-account = "=8.0.0"
spl-stake-pool = "=2.2.0"
spl-token = "=9.0.0"

[dev-dependencies]
borsh = "=1.8.1"
