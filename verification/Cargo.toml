[package]
name = "convert_to_svg"
version = "0.1.0"
edition = "2021"
publish = false

[dependencies]
anyhow = "=1.0.104"
clap = { version = "=4.6.7", features = ["derive"] }
colored = "=3.1.1"
visioncortex = "=0.8.10"
vtracer = "=0.6.5"
