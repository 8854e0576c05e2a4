[package]
name = "binary_codec"
version = "0.1.0"
edition = "2021"
publish = false

[dependencies]
