[package]
name = "little_cube"
version = "0.1.0"
edition = "2021"
publish = false

[dependencies]
camera_controllers = "=0.36.0"
gfx = "=0.18.3"
piston_window = "0.120.0"
shader_version = "=0.7.0"
vecmath = "=1.0.0"

[dev-dependencies]
pistoncore-input = "1.0"
