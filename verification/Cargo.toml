[package]
name = "segcpu"
version = "0.1.0"
edition = "2021"

[dependencies]
hlua = "*"
