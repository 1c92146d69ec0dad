[package]
name = "spsc"
version = "0.1.0"
edition = "2021"
publish = false

[dependencies]
bilock = "*"

[dev-dependencies]
pollster = "*"
