[package]
name = "any_palette"
version = "0.1.0"
edition = "2021"
publish = false

[dependencies]
auto-palette = "0.9"
image = { version = "0.25", default-features = false, features = ["png", "jpeg", "bmp", "gif", "webp"] }
eframe = { version = "0.30", default-features = false, features = ["default_fonts", "glow", "x11"] }
egui = "0.30"
egui_extras = { version = "0.30", features = ["image"] }
rfd = { version = "0.15", default-features = false, features = ["xdg-portal", "tokio"] }
arboard = { version = "3", default-features = false }
