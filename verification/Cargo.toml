[package]
name = "fractal_viewer"
version = "0.1.0"
edition = "2021"
publish = false

[dependencies]
minifb = "*"
num-complex = "*"
rayon = "*"
