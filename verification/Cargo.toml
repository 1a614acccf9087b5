[package]
name = "egui_term"
version = "0.1.0"
edition = "2021"
publish = false

[dependencies]
alacritty_terminal = { version = "=0.25.1", default-features = false }
egui = { version = "=0.26.2", default-features = false }
