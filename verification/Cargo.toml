[package]
name = "vkframe"
version = "0.1.0"
edition = "2021"
publish = false

[dependencies]
ash = "0.37"
winit = { version = "0.29", default-features = false, features = ["rwh_06", "x11"] }
image = { version = "0.24", default-features = false, features = ["png"] }
shaderc = "0.8"
log = "0.4"
env_logger = "0.11"
