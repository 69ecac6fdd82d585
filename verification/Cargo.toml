[package]
name = "tiny_wasm"
version = "0.1.0"
edition = "2021"

[dependencies]
nom = "7"
