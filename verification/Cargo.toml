[package]
name = "noise_primitives"
version = "0.1.0"
edition = "2021"
publish = false

[dependencies]
blake2-rfc = "0.2"
chacha20-poly1305-aead = "0.1"
