[package]
name = "szechat"
version = "0.1.0"
edition = "2021"
publish = false

[dependencies]
chrono = "=0.4.45"
rand = "=0.8.8"
serde = { version = "=1.0.229", features = ["derive"] }
egui = { version = "=0.27.2", features = ["serde"] }
eframe = { version = "=0.27.2", default-features = false, features = ["glow", "persistence"] }
windows-sys = { version = "=0.48.0", features = ["Win32_Foundation", "Win32_UI_Input_KeyboardAndMouse"] }
