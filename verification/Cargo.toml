[package]
name = "vertcrop"
version = "0.1.0"
edition = "2021"
publish = false

[dependencies]
anyhow = "*"
argh = "*"
chrono = "*"
image = "*"
image-compare = "*"
indicatif = "*"
