[package]
name = "egui_render_wgpu"
version = "0.1.0"
edition = "2021"
publish = false

[dependencies]
bytemuck = { version = "=1.25.2", features = ["derive"] }
egui = { version = "=0.20.1", features = ["bytemuck"] }
glfw = { version = "=0.63.0", default-features = false, features = ["raw-window-handle-v0-5"] }
glutin = "=0.29.1"
intmap = "=2.0.0"
pollster = "=0.2.5"
raw-window-handle = "=0.5.2"
tracing = "=0.1.44"
wgpu = "=0.14.2"
winit = "=0.27.5"
