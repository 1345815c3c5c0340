[package]
name = "rotation_controller"
version = "0.1.0"
edition = "2021"
publish = false

[dependencies]
kiss3d = { version = "=0.35.0", features = ["conrod"] }

[dev-dependencies]
nalgebra = "=0.30.1"
