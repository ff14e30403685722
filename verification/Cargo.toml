[package]
name = "rasterizer"
version = "0.1.0"
edition = "2021"
publish = false

[dependencies]
image = "*"
nalgebra-glm = "*"
obj = "*"
