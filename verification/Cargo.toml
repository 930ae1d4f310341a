[package]
name = "subsa"
version = "0.1.0"
edition = "2021"
publish = false

[dependencies]
ink = { version = "*", features = ["std"] }
parity-scale-codec = "*"
scale-info = "*"
