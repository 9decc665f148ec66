[package]
name = "t10_detector"
version = "0.1.0"
edition = "2021"
publish = false

[dependencies]
anyhow = "1"
eframe = { version = "0.29", default-features = false, features = ["default_fonts", "glow", "x11"] }
parking_lot = "0.12"
serialport = { version = "4", default-features = false }
