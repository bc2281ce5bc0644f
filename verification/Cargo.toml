[package]
name = "bitcoinr_codec"
version = "0.1.0"
edition = "2021"
publish = false

[dependencies]
bytes = "0.4"
sha2 = "*"
chrono = "*"
tokio-io = "0.1"
