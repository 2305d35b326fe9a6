[package]
name = "poe_overlay"
version = "0.1.0"
edition = "2021"
publish = false

[dependencies]
gtk = "=0.18.2"
gtk-layer-shell = { version = "=0.8.2", features = ["v0_6"] }
serde = { version = "=1.0.229", features = ["derive"] }
tauri = { version = "=2.12.5", default-features = false, features = ["wry"] }
