[package]
name = "data_fabric"
version = "0.1.0"
edition = "2021"
publish = false

[dependencies]
getrandom = "=0.2.17"
hex = "=0.4.3"
serde = { version = "=1.0.229", features = ["derive"] }
serde_json = "=1.0.151"
worker = { version = "=0.8.7", features = ["d1"] }
js-sys = "=0.3.106"
wasm-bindgen = "=0.2.129"
console_error_panic_hook = "=0.1.7"
