[package]
name = "avicalc_backend"
version = "0.1.0"
edition = "2021"
publish = false

[dependencies]
float-pretty-print = "*"
strum = "*"
strum_macros = "*"
