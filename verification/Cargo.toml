[package]
name = "mirage_tank"
version = "0.1.0"
edition = "2021"
publish = false

[dependencies]
image = { version = "=0.24.9", default-features = false, features = ["png", "jpeg", "bmp"] }
anyhow = "=1.0.104"
rfd = "0.15"
slint = { version = "1", default-features = false, features = ["std", "compat-1-2"] }
