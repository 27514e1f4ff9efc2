[package]
name = "pi_frame"
version = "0.1.0"
edition = "2021"
publish = false

[dependencies]
image = { version = "=0.25.10", default-features = false, features = ["png"] }
serde = { version = "=1.0.229", features = ["derive"] }
toml = "=0.8.23"
framebuffer = "=0.3.2"
gstreamer = "=0.22.8"
gstreamer-video = "=0.22.8"
glib = "=0.19.9"
gst-plugin-fallbackswitch = "=0.12.7"
