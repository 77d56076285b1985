[package]
name = "topdown_shooter"
version = "0.1.0"
edition = "2021"
publish = false

[dependencies]
macroquad = "0.4"
parry2d = "0.17"
rand = "0.8"
