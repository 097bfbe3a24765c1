[package]
name = "breakout"
version = "0.1.0"
edition = "2021"
publish = false

[dependencies]
rand = "=0.8.8"
winit = "=0.28.7"
wgpu = "=0.16.3"
bytemuck = { version = "=1.25.2", features = ["derive"] }
pollster = "=0.3.0"
env_logger = "=0.10.2"
log = "=0.4.35"
png = "=0.17.16"
console_error_panic_hook = "=0.1.7"
console_log = "=1.1.0"
wasm-bindgen-futures = "=0.4.80"
web-sys = { version = "=0.3.72", features = ["Document", "Window", "Element", "HtmlElement", "Node", "HtmlCanvasElement"] }
