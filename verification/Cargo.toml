[package]
name = "text_input"
version = "0.1.0"
edition = "2021"
publish = false

[dependencies]
unicode-segmentation = "=1.13.3"
log = "=0.4.34"
winit = "=0.25.0"
window_clipboard = "=0.2.4"
dodrio = "=0.2.0"
objc = "=0.2.7"
wgpu_glyph = "0.8"
