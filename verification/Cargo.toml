[package]
name = "compute-shader-toy"
version = "0.1.0"
edition = "2021"
publish = false

[dependencies]
async-executor = "1"
bytemuck = "1"
console_error_panic_hook = "0.1"
console_log = "0.2"
env_logger = "0.9"
js-sys = "0.3"
log = "0.4"
pollster = "0.2"
wasm-bindgen = "0.2"
wasm-bindgen-futures = "0.4"
web-sys = { version = "0.3", features = ["Document", "Element", "HtmlElement", "Node", "Window", "CssStyleDeclaration", "HtmlCanvasElement", "console"] }
wgpu = "0.12"
winit = "0.26"
