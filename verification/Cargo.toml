[package]
name = "ress"
version = "0.1.0"
edition = "2021"
publish = false

[dependencies]
eframe = "=0.18.0"
egui_extras = { version = "=0.18.0", features = ["image"] }
image = { version = "=0.24.9", default-features = false, features = ["png"] }
notify-rust = "=4.18.2"

[dev-dependencies]
tempfile = "3"
