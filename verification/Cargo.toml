[package]
name = "vnc"
version = "0.1.0"
edition = "2021"
publish = false

[dependencies]
futures = "=0.3.34"
tokio = { version = "=1.54.1", features = ["io-util", "macros", "rt", "sync"] }
tokio-stream = "=0.1.19"
tokio-util = { version = "=0.7.20", features = ["compat"] }
tracing = "=0.1.44"
wasm-bindgen-futures = "0.4"
