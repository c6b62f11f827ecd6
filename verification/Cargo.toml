[package]
name = "mini_engine"
version = "0.1.0"
edition = "2021"
publish = false

[dependencies]
glam = "*"
vulkano = "*"
vulkano-shaders = "*"
winit = "0.29"
