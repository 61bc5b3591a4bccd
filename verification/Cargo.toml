[package]
name = "raytracer"
version = "0.1.0"
edition = "2021"
publish = false

[dependencies]
rand = "0.9"
glam = { version = "0.30", features = ["rand"] }
image = { version = "0.25", default-features = false, features = ["png", "jpeg", "rayon"] }
indicatif = "0.17"
enum_dispatch = "0.3"
