[package]
name = "scape"
version = "0.1.0"
edition = "2021"
publish = false

[dependencies]
anyhow = "=1.0.104"
calloop = "=0.14.5"
clap = { version = "=4.6.7", features = ["derive"] }
egui = "=0.30.0"
egui_glow = "=0.30.0"
mlua = { version = "=0.9.9", features = ["lua54", "vendored"] }
profiling = "=1.0.18"
smithay = { version = "=0.7.0", default-features = false, features = ["backend_drm", "desktop", "wayland_frontend", "xwayland", "renderer_glow"] }
tracing = "=0.1.44"
tracing-subscriber = { version = "=0.3.23", features = ["env-filter"] }
xkbcommon = "=0.8.0"
xkeysym = "=0.2.1"
