[package]
name = "openexr_viewer"
version = "0.1.0"
edition = "2021"
publish = false

[dependencies]
anyhow = "=1.0.104"
env_logger = "=0.10.2"
log = "=0.4.34"
pixels = "=0.13.0"
winit = "=0.28.7"
winit_input_helper = "=0.14.1"
