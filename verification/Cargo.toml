[package]
name = "wm_core"
version = "0.1.0"
edition = "2021"
publish = false

[dependencies]
xkbcommon = "0.4"
smithay = { version = "0.3", default-features = false, features = ["wayland_frontend"] }
serde = { version = "1", features = ["derive"] }
serde_json = "1"
slog = "2"
slog-async = "2"
slog-term = "2"
