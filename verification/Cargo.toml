[package]
name = "vless_ws"
version = "0.1.0"
edition = "2021"
publish = false

[dependencies]
base64-url = "*"
bytes = "*"
futures-util = "*"
pin-project = "*"
tokio = { version = "*", default-features = false, features = ["io-util"] }
wasm-bindgen-futures = "*"
worker = "*"
