[package]
name = "image_compressor"
version = "0.1.0"
edition = "2021"
publish = false

[dependencies]
anyhow = "=1.0.104"
axum = "=0.8.9"
axum-extra = { version = "=0.12.6", features = ["multipart"] }
clap = { version = "=4.6.7", features = ["derive"] }
humansize = "=2.1.3"
image = { version = "=0.25.10", default-features = false, features = ["bmp", "dds", "exr", "ff", "gif", "hdr", "ico", "jpeg", "png", "pnm", "qoi", "tga", "tiff", "webp", "rayon"] }
imagequant = "=4.4.1"
log = "=0.4.34"
mozjpeg = "=0.10.13"
num_cpus = "=1.17.0"
oxipng = { version = "=10.2.1", default-features = false, features = ["parallel", "zopfli"] }
ravif = { version = "=0.13.0", default-features = false, features = ["threading"] }
rayon = "=1.12.0"
rgb = "=0.8.53"
tokio = { version = "=1.54.1", features = ["full"] }
tower = "=0.5.3"
tower-http = { version = "=0.7.1", features = ["cors"] }
walkdir = "=2.5.0"
webbrowser = "=1.2.5"
webp = { version = "=0.3.1", default-features = false }
