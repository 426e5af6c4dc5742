[package]
name = "cobalt"
version = "0.1.0"
edition = "2021"
publish = false

[dependencies]
image = { version = "*", default-features = false, features = ["png", "jpeg"] }
tinytga = "*"
tobj = "*"
gltf = "*"
glam = "*"
