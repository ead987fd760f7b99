[package]
name = "runner"
version = "0.1.0"
edition = "2021"
publish = false

[dependencies]
gl = "0.14"
glm = "0.2"
image = { version = "0.24", default-features = false, features = ["png"] }
sdl2 = "0.35"
