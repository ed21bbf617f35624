[package]
name = "work_timer"
version = "0.1.0"
edition = "2021"
publish = false

[dependencies]
anyhow = "1"
crossbeam-channel = "0.5"
directories = "5"
egui = "0.31"
global-hotkey = "0.6"
rodio = { version = "0.20", default-features = false, features = ["wav"] }
serde = { version = "1", features = ["derive"] }
toml = "0.8"
