[package]
name = "reth_middleware"
version = "0.1.0"
edition = "2021"
publish = false

[dependencies]
ethers = { version = "=2.0.14", default-features = false }
jsonrpsee = { version = "=0.18.2", default-features = false, features = ["jsonrpsee-types"] }
thiserror = "=1.0.69"
serde_json = "=1.0.154"
serde = "1"
