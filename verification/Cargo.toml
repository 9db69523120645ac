[package]
name = "egui_winit_platform"
version = "0.1.0"
edition = "2021"
publish = false

[dependencies]
clipboard = "0.5"
webbrowser = "0.8"
egui = "0.14"
winit = "0.29"
