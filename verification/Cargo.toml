[package]
name = "music_hotkey_mapper"
version = "0.1.0"
edition = "2021"
publish = false

[dependencies]
crossbeam-channel = "=0.5.17"
dirs = "6"
eframe = { version = "0.29", default-features = false, features = ["default_fonts", "glow", "x11"] }
env_logger = "=0.11.11"
log = "=0.4.34"
rdev = "=0.5.3"
serde = { version = "=1.0.229", features = ["derive"] }
serde_json = "=1.0.154"
