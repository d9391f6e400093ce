[package]
name = "penguin"
version = "0.1.0"
edition = "2021"
publish = false

[dependencies]
anyhow = "=1.0.104"
bitflags = "=2.13.2"
byteorder = "=1.5.0"
crc32fast = "=1.5.3"
eframe = { version = "0.29", default-features = false, features = ["default_fonts", "glow", "x11"] }
image = { version = "0.25", default-features = false, features = ["png"] }
json = "=0.12.4"
rfd = "0.15"
