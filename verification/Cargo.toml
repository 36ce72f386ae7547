[package]
name = "wrpc_transport_do"
version = "0.1.0"
edition = "2021"
publish = false

[dependencies]
bytes = { version = "=1.12.1", features = ["serde"] }
serde = { version = "=1.0.229", features = ["derive"] }
serde_json = { version = "=1.0.154", features = ["raw_value"] }
futures-util = "=0.3.34"
wasm-bindgen = "=0.2.130"
console_error_panic_hook = "=0.1.7"
worker = "=0.8.7"
