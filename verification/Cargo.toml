[package]
name = "rayge"
version = "0.1.0"
edition = "2021"
publish = false

[dependencies]
ash = "0.38"
raw-window-handle = "0.6"
thiserror = "1"
tracing = "0.1"
tracing-subscriber = "0.3"
vk-mem = "0.4"
winit = "0.30"
