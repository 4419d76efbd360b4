[package]
name = "enclave_runtime"
version = "0.1.0"
edition = "2021"
publish = false

[dependencies]
base58 = "=0.2.0"
parity-scale-codec = "=3.7.5"
sgx_tcrypto = "=1.1.1"
