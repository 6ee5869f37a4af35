[package]
name = "custody_settlement"
version = "0.1.0"
edition = "2021"
publish = false

[dependencies]
anchor-lang = "=0.31.2"
mpl-token-metadata = "=5.1.1"
borsh = { version = "=1.8.1", features = ["derive"] }
