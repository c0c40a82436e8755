[package]
name = "naviz_core"
version = "0.1.0"
edition = "2021"
publish = false

[dependencies]
glam = "=0.29.3"
