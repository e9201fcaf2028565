[package]
name = "ferron"
version = "0.1.0"
edition = "2021"
publish = false

[dependencies]
image = { version = "*", default-features = false, features = ["jpeg", "png"] }
glam = "*"
vulkano = "0.35"
ash = "0.38"
