[package]
name = "llama_xet"
version = "0.1.0"
edition = "2021"
publish = false

[dependencies]
hf-xet = "*"
