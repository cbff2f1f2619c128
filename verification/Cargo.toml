[package]
name = "faceforge_desktop"
version = "0.1.0"
edition = "2021"
publish = false

[dependencies]
anyhow = "=1.0.104"
base64 = "=0.22.1"
portpicker = "=0.1.1"
rand = "=0.8.8"
rfd = { version = "0.15", default-features = false, features = ["gtk3"] }
serde = { version = "=1.0.229", features = ["derive"] }
serde_json = "=1.0.154"
