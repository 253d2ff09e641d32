[package]
name = "xilem_lite"
version = "0.1.0"
edition = "2021"
publish = false

[dependencies]
tracing = "0.1"
wgpu = "*"
winit = "0.30"
accesskit = "*"
