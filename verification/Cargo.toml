[package]
name = "svg_to_png"
version = "0.1.0"
edition = "2021"
publish = false

[dependencies]
anyhow = "*"
clap = { version = "*", features = ["derive"] }
fontdb = "*"
notify = "*"
resvg = "*"
tiny-skia = "*"
usvg = "*"
