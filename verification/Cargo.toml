[package]
name = "bpetok"
version = "0.1.0"
edition = "2021"
publish = false

[dependencies]
bpe-openai = "*"
bpe = "*"
wasm-bindgen = "*"
console_error_panic_hook = "*"
