[package]
name = "minibrowser"
version = "0.1.0"
edition = "2021"
publish = false

[dependencies]
directories = "5"
egui = "0.28"
egui_glow = { version = "0.28", features = ["winit"] }
egui-winit = { version = "0.28", default-features = false }
euclid = "0.22"
gleam = "0.15"
glow = "0.13"
headers = "0.3"
http = "0.2"
log = "0.4"
rusqlite = "0.31"
tinyfiledialogs = "3"
winit = "0.29"
