[package]
name = "vault_import"
version = "0.1.0"
edition = "2021"
publish = false

[dependencies]
axum = "=0.8.9"
chrono = "=0.4.45"
serde = { version = "=1.0.229", features = ["derive"] }
serde_json = "=1.0.151"
uuid = { version = "=1.27.0", features = ["v4"] }
worker = { version = "=0.8.7", features = ["d1"] }
wasm-bindgen = "=0.2.129"
