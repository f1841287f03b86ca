[package]
name = "hex_editor"
version = "0.1.0"
edition = "2021"
publish = false

[dependencies]
eframe = "0.18"
egui_extras = "0.18"
image = { version = "0.24", default-features = false, features = ["png"] }
nfd = "0.0.4"
