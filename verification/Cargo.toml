[package]
name = "brewcode"
version = "0.1.0"
edition = "2021"
publish = false

[dependencies]
nalgebra = "*"
wgpu = "0.4"
winit = "0.20"
