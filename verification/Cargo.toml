[package]
name = "svg2appicon"
version = "0.1.0"
edition = "2021"
publish = false

[dependencies]
resvg = "=0.19.0"
usvg = "0.19"
tiny-skia = "0.6"
clap = "2"
anyhow = "1"
