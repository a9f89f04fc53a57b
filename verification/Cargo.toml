[package]
name = "easycompositing"
version = "0.1.0"
edition = "2021"
publish = false

[dependencies]
niri-ipc = "=26.4.0"
serde = { version = "=1.0.229", features = ["derive"] }
serde_json = "=1.0.154"
thiserror = "=2.0.21"
wayland-client = "=0.31.15"
wayland-protocols = { version = "=0.32.13", features = ["client", "staging"] }
wayland-protocols-plasma = { version = "0.3", features = ["client"] }
wayland-protocols-wlr = { version = "=0.3.12", features = ["client"] }
x11rb = "=0.13.2"
