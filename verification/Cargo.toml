[package]
name = "hash_injector"
version = "0.1.0"
edition = "2021"
publish = false

[dependencies]
ndd = "*"
