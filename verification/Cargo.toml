[package]
name = "pwrate"
version = "0.1.0"
edition = "2021"
publish = false

[dependencies]
gtk4 = "0.6"
once_cell = "=1.21.4"
pipewire = "0.6"
serde = { version = "=1.0.229", features = ["derive"] }
serde_json = "=1.0.154"
