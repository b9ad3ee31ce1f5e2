[package]
name = "powermon"
version = "0.1.0"
edition = "2021"
publish = false

[dependencies]
nix = { version = "*", features = ["signal", "process", "user", "fs"] }
drm = "*"
libseat = "*"
wayland-client = "*"
wayland-protocols-wlr = { version = "*", features = ["client"] }
