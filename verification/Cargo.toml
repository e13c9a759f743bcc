[package]
name = "fluxel_gl"
version = "0.1.0"
edition = "2021"
publish = false

[dependencies]
glow = "*"
khronos-egl = { version = "*", features = ["dynamic"] }
raw-window-handle = "*"
glutin_wgl_sys = "*"
