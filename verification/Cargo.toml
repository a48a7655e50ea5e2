[package]
name = "pong_core"
version = "0.1.0"
edition = "2021"
publish = false

[dependencies]
rand = "0.9"
bytemuck = "1"
pollster = "0.4"
glfw = "0.59"
wgpu = "24"
