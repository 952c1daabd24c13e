[package]
name = "img2avif"
version = "1.3.0"
edition = "2021"
publish = false

[dependencies]
bytemuck = "=1.25.2"
clap = { version = "=4.6.7", features = ["derive"] }
image = { version = "=0.25.10", default-features = false, features = ["jpeg", "png", "bmp", "gif", "tiff", "webp", "ico", "rayon"] }
indicatif = "=0.17.11"
ravif = { version = "=0.13.0", default-features = false, features = ["threading"] }
rawloader = "=0.37.2"
rayon = "=1.12.0"
rgb = "=0.8.53"
thiserror = "=1.0.69"
walkdir = "=2.5.0"
