[package]
name = "enclave_io"
version = "0.1.0"
edition = "2021"
publish = false

[dependencies]
crossbeam-channel = "0.5"
iovec = "0.1"
async-usercalls = "*"
