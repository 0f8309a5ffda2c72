[package]
name = "actual_game"
version = "0.1.0"
edition = "2021"
publish = false

[dependencies]
anyhow = "=1.0.104"
bytemuck = { version = "=1.25.2", features = ["derive"] }
cgmath = "=0.18.0"
console_error_panic_hook = "=0.1.7"
console_log = "=1.1.0"
env_logger = "=0.11.11"
futures-lite = "=2.6.1"
image = { version = "=0.25.10", default-features = false, features = ["png", "jpeg"] }
log = "=0.4.34"
pollster = "=0.4.0"
reqwest = { version = "0.12", default-features = false }
tobj = { version = "=4.0.5", features = ["futures"] }
wasm-bindgen = "=0.2.129"
wasm-bindgen-futures = "=0.4.79"
web-sys = { version = "=0.3.106", features = ["Document", "Element", "Location", "Window"] }
wgpu = "=28.0.0"
winit = "=0.30.13"
