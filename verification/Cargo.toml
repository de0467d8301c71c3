[package]
name = "statusbar"
version = "0.1.0"
edition = "2021"
publish = false

[dependencies]
neli = { version = "=0.7.5", features = ["async"] }
tokio = { version = "=1.54.1", features = ["full"] }
ratatui = "=0.30.2"
crossterm = { version = "=0.29.0", features = ["event-stream"] }
hyprland = "=0.4.0-beta.2"
pipewire = "=0.10.1"
libspa = "=0.10.1"
chrono = "=0.4.45"
futures = "=0.3.34"
futures-lite = "=2.6.1"
async-stream = "=0.3.6"
