[package]
name = "mandala"
version = "0.1.0"
edition = "2021"
publish = false

[dependencies]
dirs = "=7.0.0"
glam = "=0.34.1"
printpdf = { version = "=0.12.8", features = ["svg"] }
svg = "=0.18.0"
