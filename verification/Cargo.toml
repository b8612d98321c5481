[package]
name = "axo"
version = "0.2.0"
edition = "2021"
publish = false

[dependencies]
ab_glyph = "=0.2.32"
bytemuck = { version = "=1.25.2", features = ["derive"] }
clap = { version = "=4.6.7", features = ["derive"] }
dirs-next = "=2.0.0"
image = { version = "=0.25.10", default-features = false, features = ["png", "jpeg"] }
mlua = { version = "=0.10.5", features = ["lua54", "vendored", "send"] }
notify = "=7.0.0"
pollster = "=0.3.0"
qrcode = { version = "=0.14.1", default-features = false }
rquickjs = { version = "=0.6.2", features = ["parallel"] }
serde_json = "=1.0.154"
taffy = "=0.5.2"
wgpu = "=22.1.0"
winit = "=0.30.13"
