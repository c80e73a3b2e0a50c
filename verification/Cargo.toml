[package]
name = "raster_backend"
version = "0.1.0"
edition = "2021"
publish = false

[dependencies]
usvg = "0.8"
