[package]
name = "bjj_scoreboard"
version = "0.1.0"
edition = "2021"
publish = false

[dependencies]
anyhow = "1"
crossterm = "0.26"
eframe = { version = "0.22", default-features = false, features = ["default_fonts", "glow"] }
