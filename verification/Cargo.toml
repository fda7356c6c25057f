[package]
name = "thirdeye"
version = "0.1.0"
edition = "2021"
publish = false

[dependencies]
clap = { version = "=4.6.7", features = ["derive", "env"] }
directories = "=6.0.0"
dirs = "=7.0.0"
eframe = { version = "=0.31.1", default-features = false, features = ["default_fonts", "glow", "x11"] }
egui = "=0.31.1"
egui_extras = "=0.31.1"
egui_tiles = "=0.12.0"
env_logger = "=0.11.11"
log = "=0.4.34"
ron = "=0.8.1"
serde = { version = "=1.0.229", features = ["derive"] }
thiserror = "=2.0.21"
