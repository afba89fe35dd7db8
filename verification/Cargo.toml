[package]
name = "par_fractal"
version = "0.1.0"
edition = "2021"
publish = false

[dependencies]
serde = { version = "1", features = ["derive"] }
serde_yaml = "0.9"
serde_json = "1"
directories = "5"
dashu-float = "0.4"
glam = "0.29"
