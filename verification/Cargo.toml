[package]
name = "svg_to_png"
version = "0.1.0"
edition = "2021"
publish = false

[dependencies]
png = "*"
resvg = "*"
tiny-skia = "*"
