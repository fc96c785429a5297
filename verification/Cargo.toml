[package]
name = "nbody"
version = "0.1.0"
edition = "2021"
publish = false

[dependencies]
wgpu = { version = "=0.16.3", features = ["webgl"] }
winit = "=0.28.7"
bytemuck = { version = "=1.25.2", features = ["derive"] }
glm = "=0.2.3"
rand = "=0.8.8"
pollster = "=0.3.0"
chrono = "=0.4.45"
console_error_panic_hook = "=0.1.7"
egui = "=0.22.0"
egui_wgpu_backend = "=0.24.0"
egui_winit_platform = "=0.19.0"
wasm-bindgen = "=0.2.129"
wasm-bindgen-futures = "=0.4.79"
js-sys = "=0.3.106"
web-sys = { version = "=0.3.72", features = ["Window", "Document", "HtmlElement", "Element", "Node", "console"] }
