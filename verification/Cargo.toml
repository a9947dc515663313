[package]
name = "root_mandate"
version = "0.1.0"
edition = "2021"
publish = false

[dependencies]
frame-support = "=40.1.0"
frame-system = "=40.1.0"
sp-runtime = "=41.1.0"
sp-std = "=14.0.0"
parity-scale-codec = { version = "3", features = ["derive"] }
scale-info = { version = "2", features = ["derive"] }
