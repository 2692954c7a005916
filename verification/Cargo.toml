[package]
name = "nih_plug_slint"
version = "0.1.0"
edition = "2021"
publish = false

[dependencies]
serde = { version = "=1.0.229", features = ["derive"] }
once_cell = "=1.21.4"
baseview = { version = "=0.4.2", features = ["opengl"] }
keyboard-types = "0.6"
slint = { version = "=1.14.1", default-features = false, features = ["std", "compat-1-2"] }
