[package]
name = "cliprust"
version = "0.1.0"
edition = "2021"
publish = false

[dependencies]
sha2 = "0.10"
image = { version = "0.25", default-features = false, features = ["png"] }
unicode-bidi = "0.3"
arboard = "3"
rusqlite = { version = "*", features = ["bundled"] }
serde = { version = "1", features = ["derive"] }
serde_json = "1"
log = "0.4"
env_logger = "*"
eframe = { version = "*", default-features = false, features = ["glow", "x11", "default_fonts"] }
egui_extras = { version = "*", default-features = false }
