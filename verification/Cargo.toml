[package]
name = "eth_wallet"
version = "0.1.0"
edition = "2021"
publish = false

[dependencies]
candid = "=0.10.37"
ic-cdk = "=0.20.3"
ic-ethereum-types = "=1.0.0"
ic-secp256k1 = "=0.3.0"
ic-sha3 = "=1.0.0"
serde = "*"
serde_bytes = "=0.11.19"
