[package]
name = "prefetch_bench"
version = "0.1.0"
edition = "2021"
publish = false

[dependencies]
amiquip = "*"
rand = "0.8"
