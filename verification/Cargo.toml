[package]
name = "easel"
version = "1.0.1"
edition = "2021"
publish = false

[dependencies]
bytemuck = { version = "1", features = ["derive"] }
byteorder = "1"
chrono = "0.4"
clap = "3"
env_logger = "0.8"
futures = "0.3"
half = "1"
image = "0.23"
imgui = "0.7"
imgui-wgpu = "0.15"
imgui-winit-support = "0.7"
json = "0.12"
log = "0.4"
noise = "0.7"
notify = "4"
shaderc = "0.7"
stopwatch = "0.0.7"
wgpu = "0.8"
winit = "0.24"
