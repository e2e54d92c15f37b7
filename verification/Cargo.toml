[package]
name = "solana_ibc"
version = "0.1.0"
edition = "2021"
publish = false

[dependencies]
ibc = "=0.57.0"
ibc-core-channel-types = "=0.57.0"
ibc-core-connection-types = "=0.57.0"
ibc-core-handler-types = "=0.57.0"
sha2 = "=0.10.9"
