[package]
name = "softbuffer"
version = "0.1.0"
edition = "2021"
publish = false

[dependencies]
raw-window-handle = "=0.4.3"
wayland-client = { version = "=0.29.5", features = ["dlopen"] }
smithay-client-toolkit = { version = "=0.15.4", default-features = false, features = ["dlopen"] }
