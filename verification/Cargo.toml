[package]
name = "utxo_pipeline"
version = "0.1.0"
edition = "2021"
publish = false

[dependencies]
bitcoincore-rpc = "0.17"
serde_json = "1"
