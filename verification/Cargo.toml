[package]
name = "evm_rpc_types"
version = "0.1.0"
edition = "2021"
publish = false

[dependencies]
candid = "0.10"
ic-cdk = "0.16"
serde = { version = "1", features = ["derive"] }
thiserror = "1"
