[package]
name = "wgpu_init"
version = "0.1.0"
edition = "2021"
publish = false

[dependencies]
wgpu = "0.17"
winit = { version = "0.28", default-features = false, features = ["x11"] }
log = "0.4"
env_logger = "0.10"
wasm-bindgen = "0.2"
web-sys = { version = "0.3", features = ["Window", "Document", "Element", "HtmlCanvasElement"] }
console_log = "0.2"
