[package]
name = "aos_runtime"
version = "0.1.0"
edition = "2021"
publish = false

[dependencies]
mlua = { version = "=0.9.9", features = ["lua54", "vendored", "serialize", "send"] }
serde_json = "=1.0.154"
serde = { version = "=1.0.229", features = ["derive"] }
lazy_static = "=1.5.1"
libc = "=0.2.191"
base64 = "=0.22.1"
anyhow = "=1.0.104"
candle-core = "=0.11.0"
candle-nn = "=0.11.0"
candle-transformers = "=0.11.0"
tokenizers = { version = "=0.19.1", default-features = false, features = ["unstable_wasm"] }
image = { version = "=0.25.10", default-features = false, features = ["png"] }
wasm-bindgen = "=0.2.129"
