[package]
name = "filetime"
version = "0.1.0"
edition = "2021"
publish = false

[dependencies]
wasi = "0.11"
