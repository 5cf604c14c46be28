[package]
name = "earmaster"
version = "0.1.0"
edition = "2021"
publish = false

[dependencies]
lazy_static = "=1.5.1"
trane = "=0.20.0"
ustr = "=0.9.0"
