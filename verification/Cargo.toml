[package]
name = "raytracer"
version = "0.1.0"
edition = "2021"
publish = false

[dependencies]
egui = "0.26"
egui_glow = { version = "0.26", default-features = false }
glow = "0.13"
nalgebra-glm = "0.19"
bytemuck = "1"
serde = { version = "1", features = ["derive"] }
