[package]
name = "tri_tiles"
version = "0.1.0"
edition = "2021"
publish = false

[dependencies]
nannou = "0.19"
nannou_core = "0.19"
paleta-rs = "*"
rand = "0.8"
