[package]
name = "glscene"
version = "0.1.0"
edition = "2021"
publish = false

[dependencies]
gl = "*"
glfw = "*"
rand = "*"
ultraviolet = "*"
wavefront_obj = "*"
