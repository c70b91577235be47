[package]
name = "acril_web"
version = "0.1.0"
edition = "2021"
publish = false

[dependencies]
acril = "*"
futures = "*"
pingu = "*"
