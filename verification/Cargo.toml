[package]
name = "mycelium"
version = "0.1.0"
edition = "2021"
publish = false

[dependencies]
crossbeam = "=0.8.5"
serde = { version = "1", features = ["derive"] }
toml = "=0.9.8"
thiserror = "=2.0.21"
tracing = "0.1"
tracing-subscriber = { version = "0.3", features = ["env-filter"] }
parking_lot = "=0.12.5"
notify = "=8.2.1"
rosc = "=0.11.4"
rustfft = "=6.4.1"
bytemuck = { version = "1", features = ["derive"] }
wgpu = { version = "=27.0.1", default-features = false, features = ["std", "wgsl", "vulkan", "gles"] }
naga = { version = "=27.0.3", features = ["wgsl-in"] }
winit = "=0.30.13"
pollster = "=0.4.0"
egui = "=0.33.3"
egui-wgpu = { version = "=0.33.3", default-features = false }
egui-winit = { version = "=0.33.3", default-features = false, features = ["wayland", "x11"] }
mlua = { version = "=0.11.6", features = ["lua54", "vendored"] }
