[package]
name = "winit_x11"
version = "0.1.0"
edition = "2021"
publish = false

[dependencies]
x11rb = { version = "0.13", features = ["randr", "render", "resource_manager"] }
gethostname = "0.4"
tracing = "0.1"
