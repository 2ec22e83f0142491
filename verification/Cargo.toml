[package]
name = "poles"
version = "0.1.0"
edition = "2021"
publish = false

[dependencies]
bit-set = "*"
rand = "0.8"
palette = "*"
rosc = "*"
serial = "*"
tk-opc = "*"
