[package]
name = "engine"
version = "0.1.0"
edition = "2021"
publish = false

[dependencies]
uuid = { version = "=1.29.0", features = ["v4"] }
serde = { version = "=1.0.229", features = ["derive"] }
serde_json = "=1.0.154"
once_cell = "=1.21.4"
bytemuck = "=1.25.2"
glow = "=0.16.0"
gltf = "=1.4.1"
image = { version = "=0.25.10", default-features = false, features = ["png"] }
egui = "=0.32.3"
egui_glow = { version = "=0.32.3", default-features = false }
winit = { version = "=0.30.13", default-features = false, features = ["x11", "wayland", "wayland-dlopen", "rwh_06"] }
glutin = "=0.32.3"
glutin-winit = "=0.5.0"
raw-window-handle = "=0.6.2"
tokio = { version = "=1.54.1", features = ["rt-multi-thread", "macros"] }
web-time = "=1.1.0"
