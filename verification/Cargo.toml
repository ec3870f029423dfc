[package]
name = "rsfxr"
version = "0.1.0"
edition = "2021"
publish = false

[dependencies]
alsa = "*"
rand = "0.8"
