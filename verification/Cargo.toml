[package]
name = "wallet"
version = "0.1.0"
edition = "2021"
publish = false

[dependencies]
anyhow = "1"
chrono = { version = "=0.4.45", default-features = false, features = ["std", "clock", "serde"] }
crux_core = "=0.8.1"
crux_http = "=0.9.3"
crux_kv = "=0.4.2"
lazy_static = "1"
serde = { version = "1", features = ["derive"] }
serde_json = "=1.0.154"
thiserror = "1"
urlencoding = "=2.1.3"
wasm-bindgen = "0.2"
