[package]
name = "vulkan_engine"
version = "0.1.0"
edition = "2021"
publish = false

[dependencies]
bytemuck = "=1.25.2"
cgmath = "=0.18.0"
vulkano = "=0.34.2"
winit = "=0.28.7"
