[package]
name = "settlement"
version = "0.1.0"
edition = "2021"
publish = false

[dependencies]
hex = "0.4"
ink = "4"
openbrush = "*"
parity-scale-codec = { version = "3", features = ["derive"] }
scale-info = { version = "2", features = ["derive"] }
xxhash-rust = { version = "*", features = ["const_xxh32"] }
