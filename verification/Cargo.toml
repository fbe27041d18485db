[package]
name = "custom_signature"
version = "0.1.0"
edition = "2021"
publish = false

[dependencies]
sp-core = "*"
sp-io = "*"
sp-runtime = "*"
parity-scale-codec = "*"
