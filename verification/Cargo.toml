[package]
name = "wazi"
version = "0.1.0"
edition = "2021"
publish = false

[dependencies]
wasm-encoder = "*"
indexmap = "*"
clap = { version = "*", features = ["derive"] }
