[package]
name = "diorama_mc"
version = "0.1.0"
edition = "2021"
publish = false

[dependencies]
image = { version = "0.25", default-features = false, features = ["png"] }
minifb = "*"
nalgebra-glm = "*"
rayon = "*"
