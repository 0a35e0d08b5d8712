[package]
name = "falling_sand"
version = "0.1.0"
edition = "2021"
publish = false

[dependencies]
ndarray = "0.15"
rand = "0.8"
instant = "0.1"
egui = "0.17"
eframe = "0.17"
