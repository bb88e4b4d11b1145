[package]
name = "reth_gnosis"
version = "0.1.0"
edition = "2021"
publish = false

[dependencies]
revm = { version = "9", default-features = false, features = ["std"] }
alloy-primitives = "1"
