[package]
name = "ocall"
version = "0.1.0"
edition = "2021"
publish = false

[dependencies]
sgx_types = "*"
sgx_urts = "*"
dirs = "*"
