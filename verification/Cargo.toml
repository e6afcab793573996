[package]
name = "rusted_tree"
version = "0.1.0"
edition = "2021"
publish = false

[dependencies]
rand = { version = "0.8", features = ["small_rng"] }
cgmath = "0.17"
gl = "*"
glfw = "*"
tobj = "*"
