[package]
name = "gms_counter"
version = "0.1.0"
edition = "2021"
publish = false

[dependencies]
base64 = "0.22"
image-webp = "*"
resvg = { version = "*", default-features = false, features = ["text", "raster-images"] }
serde = { version = "1", features = ["derive"] }
worker = "*"
