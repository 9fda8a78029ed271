[package]
name = "cosmwasm-sgx-vm"
version = "0.1.0"
edition = "2021"
publish = false

[dependencies]
cosmwasm-std = "0.10"
