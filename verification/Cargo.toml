[package]
name = "gmanim"
version = "0.1.0"
edition = "2021"
publish = false

[dependencies]
nalgebra = "0.33"
tiny-skia = "0.11"
rusttype = "0.9"
usvg = "0.37"
