[package]
name = "rustybird"
version = "0.1.0"
edition = "2021"
publish = false

[dependencies]
nalgebra = "*"
rand = "0.8"
winapi = { version = "0.3", features = ["winuser"] }
