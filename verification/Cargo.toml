[package]
name = "wasm_handlebars"
version = "0.1.0"
edition = "2021"
publish = false

[dependencies]
handlebars = "=6.4.4"
serde_json = "=1.0.154"
wasm-bindgen = "=0.2.129"
