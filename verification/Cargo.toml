[package]
name = "render_boot"
version = "0.1.0"
edition = "2021"
publish = false

[dependencies]
winit = "0.30"
ash = "0.38"
ash-window = "0.13"
