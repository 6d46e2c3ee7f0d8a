[package]
name = "compositor"
version = "0.1.0"
edition = "2021"
publish = false

[dependencies]
image = "0.24"
napi = "2"
napi-derive = "2"
