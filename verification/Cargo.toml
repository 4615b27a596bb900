[package]
name = "mjsc"
version = "0.1.0"
edition = "2021"
publish = false

[dependencies]
anyhow = "=1.0.104"
brotli = "=9.0.0"
walrus = "=0.27.2"
wizer = "=10.0.0"
structopt = "=0.3.26"
binaryen = "=0.13.0"
wasmtime-wasi = "=36.0.17"
