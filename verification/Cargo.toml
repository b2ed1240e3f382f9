[package]
name = "tokenshare"
version = "0.1.0"
edition = "2021"
publish = false

[dependencies]
aes = "0.6"
base64 = "0.22"
block-modes = "0.7"
chacha20poly1305 = "0.10"
rand = "0.8"
serde = { version = "1", features = ["derive"] }
leptos = "0.6"
leptos_meta = "0.6"
leptos_router = "0.6"
leptos-spin = "0.2"
spin-sdk = "3"
