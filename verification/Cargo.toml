[package]
name = "raytracer"
version = "0.1.0"
edition = "2021"
publish = false

[dependencies]
approx = "0.1"
clap = "2"
image = "0.18"
