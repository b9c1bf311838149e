[package]
name = "input_overlay"
version = "0.1.0"
edition = "2021"
publish = false

[dependencies]
pixels = "0.9"
raqote = { version = "0.8", default-features = false }
rdev = "0.5"
winit = "0.26"
