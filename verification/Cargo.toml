[package]
name = "defichain_rpc"
version = "0.1.0"
edition = "2021"
publish = false

[dependencies]
serde_json = "*"
bitcoin = "*"
async-trait = "*"
