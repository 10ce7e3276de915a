[package]
name = "scene_viewer"
version = "0.1.0"
edition = "2021"
publish = false

[dependencies]
glium = "0.30"
cgmath = "0.18"
image = { version = "0.24", default-features = false, features = ["png"] }
num-traits = "0.2"
obj-rs = { version = "0.7", features = ["glium"] }
