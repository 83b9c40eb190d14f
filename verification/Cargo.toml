[package]
name = "raymarcher"
version = "0.1.0"
edition = "2021"
publish = false

[dependencies]
wgpu = "=0.17.2"
winit = "=0.28.7"
raw-window-handle = "=0.5.2"
nalgebra = "=0.32.6"
bytemuck = "=1.25.2"
pollster = "=0.3.0"
log = "=0.4.34"
env_logger = "=0.10.2"
android-activity = { version = "=0.5.2", features = ["native-activity"] }
android_logger = "=0.13.3"
ndk = { version = "=0.8.0", default-features = false, features = ["rwh_05"] }
ndk-sys = "=0.5.0"
