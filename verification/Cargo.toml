[package]
name = "kuplung"
version = "0.1.0"
edition = "2021"
publish = false

[dependencies]
bytemuck = "=1.25.2"
chrono = { version = "=0.4.45", default-features = false, features = ["clock"] }
eframe = { version = "=0.28.1", default-features = false, features = ["glow"] }
egui = { version = "=0.28.1", default-features = false }
egui_extras = { version = "=0.28.1", default-features = false }
env_logger = { version = "0.11", default-features = false }
glutin = { version = "=0.31.3", default-features = false }
image = { version = "=0.25.10", default-features = false, features = ["png"] }
log = "=0.4.34"
nalgebra-glm = "=0.19.0"
winit = { version = "=0.29.15", default-features = false }
