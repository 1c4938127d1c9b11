[package]
name = "wasm_typing_core"
version = "0.1.0"
edition = "2021"
publish = false

[dependencies]
wasm-bindgen = "*"
serde = { version = "*", features = ["derive"] }
serde-wasm-bindgen = "*"
console_error_panic_hook = "*"
