[package]
name = "egui_wgpu"
version = "0.1.0"
edition = "2021"
publish = false

[dependencies]
ahash = "=0.7.8"
bytemuck = { version = "=1.25.2", features = ["derive"] }
egui = { version = "0.17", features = ["convert_bytemuck"] }
egui-winit = { version = "0.17", default-features = false }
wgpu = "=0.12.0"
