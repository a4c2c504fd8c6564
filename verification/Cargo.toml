[package]
name = "gero"
version = "0.1.0"
edition = "2021"
publish = false

[dependencies]
serde = { version = "1", features = ["derive"] }
serde_json = "1"
winit = { version = "0.29", default-features = false, features = ["rwh_06", "x11"] }
rodio = { version = "0.17", default-features = false, features = ["wav"] }
