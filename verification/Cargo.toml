[package]
name = "egui_logger"
version = "0.1.0"
edition = "2021"
publish = false

[dependencies]
log = "*"
chrono = "*"
regex = "*"
egui = { version = "*", default-features = false }
