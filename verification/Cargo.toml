[package]
name = "vane"
version = "0.1.0"
edition = "2021"
publish = false

[dependencies]
parity-scale-codec = "3"
sp-core = "*"
sp-io = "*"
sp-runtime = "*"
hex = "0.4"
array-bytes = "*"
serde = { version = "1", features = ["derive"] }
