[package]
name = "wayland-shadow-overlay"
version = "0.1.0"
edition = "2021"
publish = false

[dependencies]
bytemuck = { version = "=1.25.2", features = ["derive"] }
pollster = "=0.3.0"
raw-window-handle = "=0.6.2"
smithay-client-toolkit = { version = "=0.19.2", default-features = false }
wayland-client = { version = "=0.31.15", features = ["system", "dlopen"] }
wgpu = "=0.19.4"
