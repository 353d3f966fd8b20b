[package]
name = "helide"
version = "0.1.0"
edition = "2021"
publish = false

[dependencies]
winit = "0.30"
wgpu = "24"
crossfont = "0.8"
alacritty_terminal = "0.25"
tokio = { version = "1", features = ["rt-multi-thread", "sync", "time"] }
serde = { version = "1", features = ["derive"] }
serde_json = "1"
toml = "0.8"
dirs = "6"
bytemuck = { version = "1", features = ["derive"] }
anyhow = "1"
arboard = "3"
pollster = "0.4"
log = "0.4"
content_inspector = "0.2"
which = "7"
futures-util = "0.3"
arc-swap = "1"
objc2 = "0.5"
objc2-app-kit = "0.2"
objc2-foundation = "0.2"
