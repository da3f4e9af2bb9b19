[package]
name = "fibonacci"
version = "0.1.0"
edition = "2021"
publish = false

[dependencies]
axum = "0.8"
axum-server = "*"
tokio = { version = "1", features = ["macros", "rt-multi-thread"] }
wasm-bindgen = "*"
