[package]
name = "sndfile"
version = "0.1.0"
edition = "2021"
publish = false

[dependencies]
sndfile-sys = "*"
lazy_static = "*"
ndarray = "*"
