[package]
name = "camera_viewer"
version = "0.1.0"
edition = "2021"
publish = false

[dependencies]
druid = { version = "=0.6.0", features = ["image"] }
eye = "=0.3.1"
image = { version = "=0.23.14", default-features = false }
