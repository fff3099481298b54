[package]
name = "ashbot"
version = "0.1.0"
edition = "2021"
publish = false

[dependencies]
anyhow = "1"
wasi-common = "=46.0.3"
wasmtime = { version = "=46.0.3", default-features = false, features = ["runtime", "cranelift", "wat", "std"] }
