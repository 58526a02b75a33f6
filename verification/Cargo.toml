[package]
name = "health_notifications"
version = "0.1.0"
edition = "2021"
publish = false

[dependencies]
tao = "*"
tray-icon = "*"
notify-rust = "*"
