[package]
name = "decompose_vietnamese"
version = "0.1.0"
edition = "2021"
publish = false

[dev-dependencies]
unic-normal = "*"
