[package]
name = "playdeck"
version = "0.1.0"
edition = "2021"
publish = false

[dependencies]
cpal = "0.15"
rodio = "0.20"
