[package]
name = "life_torus"
version = "0.1.0"
edition = "2021"
publish = false

[dependencies]
gif = "*"
image = { version = "*", default-features = false }
raylib = "*"
