[package]
name = "psp-gfx"
version = "0.1.0"
edition = "2021"
publish = false

[dependencies]
psp = "*"
