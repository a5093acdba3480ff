[package]
name = "forsm"
version = "0.1.0"
edition = "2021"
publish = false

[dependencies]
anyhow = "=1.0.104"
parity-wasm = "=0.42.2"
wasmer = "=2.3.0"
wasmer-wasi = "=2.3.0"

[dev-dependencies]
wasmi = "*"
