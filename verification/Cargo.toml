[package]
name = "mi-reth-evm"
version = "0.1.0"
edition = "2021"
publish = false

[dependencies]
alloy-primitives = { version = "=1.7.3", default-features = false, features = ["std"] }
revm = { version = "=34.0.0", default-features = false, features = ["std"] }
eyre = "=0.6.14"
clap = { version = "4", features = ["derive"] }
