[package]
name = "vspreview"
version = "0.1.0"
edition = "2021"
publish = false

[dependencies]
anyhow = "1"
clap = { version = "4", features = ["derive"] }
eframe = { version = "0.32", default-features = false, features = ["default_fonts", "glow", "persistence", "x11"] }
fast_image_resize = "5"
image = { version = "0.25", default-features = false, features = ["png"] }
itertools = "0.14"
lcms2 = "6"
parking_lot = "0.12"
poll-promise = "0.3"
rfd = { version = "0.15", default-features = false, features = ["xdg-portal", "tokio"] }
rgb = "0.8"
serde = { version = "1", features = ["derive"] }
vapoursynth = { version = "0.4", features = ["vapoursynth-api-36", "vsscript-api-32", "vapoursynth-functions", "vsscript-functions"] }
