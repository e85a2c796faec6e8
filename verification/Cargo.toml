[package]
name = "quiz_viewer"
version = "0.1.0"
edition = "2021"
publish = false

[dependencies]
eframe = { version = "=0.36.2", default-features = false, features = ["glow", "persistence", "x11"] }
egui = "=0.36.2"
rfd = { version = "=0.15.4", default-features = false, features = ["gtk3"] }
pollster = "*"
serde = { version = "=1.0.229", features = ["derive"] }
