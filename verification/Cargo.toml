[package]
name = "gallery_nav"
version = "0.1.0"
edition = "2021"
publish = false

[dependencies]
zip = { version = "0.6", default-features = false, features = ["deflate"] }
image = { version = "0.24", default-features = false, features = ["png", "jpeg", "gif", "bmp", "webp", "ico", "tga", "pnm", "tiff"] }
eframe = { version = "0.20", default-features = false, features = ["default_fonts", "glow"] }
mimalloc = "0.1"
