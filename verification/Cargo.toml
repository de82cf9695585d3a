[package]
name = "egui_knobs"
version = "0.1.0"
edition = "2021"
publish = false

[dependencies]
egui = "0.19"
eframe = "0.19"
chrono = "0.4"
chrono-tz = "0.6"
