[package]
name = "pax_core"
version = "0.1.0"
edition = "2021"
publish = false

[dependencies]
kurbo = "0.9"
piet = "0.6"
