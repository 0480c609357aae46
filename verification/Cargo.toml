[package]
name = "render_scaffold"
version = "0.1.0"
edition = "2021"
publish = false

[dependencies]
wgpu = "25"
glfw = "*"
pollster = "*"
