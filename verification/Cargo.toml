[package]
name = "tomotroid"
version = "0.1.0"
edition = "2021"
publish = false

[dependencies]
global-hotkey = "=0.8.0"
serde = { version = "=1.0.229", features = ["derive"] }
serde_json = "=1.0.151"
directories = "=6.0.0"
notify-rust = "=4.18.2"
