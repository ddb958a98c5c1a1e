[package]
name = "vst_host"
version = "0.1.0"
edition = "2021"
publish = false

[dependencies]
vst = "0.2"
winit = "0.22"
raw-window-handle = "0.3"
