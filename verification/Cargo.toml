[package]
name = "bpf_disasm"
version = "0.1.0"
edition = "2021"
publish = false

[dependencies]
elf = "0.7"
serde = { version = "1", features = ["derive"] }
wasm-bindgen = "0.2"
web-sys = { version = "0.3", features = ["console"] }
