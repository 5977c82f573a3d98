[package]
name = "authorization"
version = "0.1.0"
edition = "2021"
publish = false

[dependencies]
anyhow = "1"
indexmap = "1.9"
parking_lot = "0.12"
snarkvm-console = "0.9"
