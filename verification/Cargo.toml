[package]
name = "secure_stream"
version = "0.1.0"
edition = "2021"
publish = false

[dependencies]
no-std-net = "0.6"
