[package]
name = "openxgauthenticator"
version = "0.1.0"
edition = "2021"
publish = false

[dependencies]
libopenxg = "=0.1.3"
confy = "=0.5.1"
serde = { version = "=1.0.229", features = ["derive"] }
reqwest = { version = "=0.11.27", features = ["blocking"] }
rpassword = "=7.5.4"
ansi_term = "=0.12.1"
dirs = "=5.0.1"
toml = "=0.7.8"
once_cell = "=1.21.4"
eframe = { version = "=0.22.0", default-features = false, features = ["default_fonts", "glow"] }
egui = "=0.22.0"
catppuccin-egui = "=2.0.2"
image = { version = "=0.24.9", default-features = false, features = ["png"] }
tracing-subscriber = "=0.3.23"
self_update_danger_no_ssl_verify = { version = "*", default-features = false }
