[package]
name = "ai_ark"
version = "0.1.0"
edition = "2021"
publish = false

[dependencies]
serde = { version = "=1.0.229", features = ["derive"] }
serde_json = "=1.0.154"
tokio = { version = "=1.54.1", features = ["macros", "rt-multi-thread"] }
wasi-http-client = "=0.2.1"
wasmtime = "=28.0.1"
wasmtime-wasi = "=28.0.1"
wasmtime-wasi-http = "=28.0.1"

[dev-dependencies]
wat = "=1.262.0"
