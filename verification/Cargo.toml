[package]
name = "anland"
version = "0.1.0"
edition = "2021"
publish = false

[dependencies]
anyhow = "1"
libc = "0.2"
pipewire = "0.10"
smithay = { version = "*", default-features = false, features = ["backend_drm", "backend_egl", "desktop", "renderer_gl", "wayland_frontend"] }
tracy-client = { version = "*", default-features = false }
