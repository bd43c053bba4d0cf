[package]
name = "moonshine"
version = "0.1.0"
edition = "2021"
publish = false

[dependencies]
ash = "0.38"
async-shutdown = "*"
calloop = "*"
drm-fourcc = "*"
libc = "0.2"
pixelforge = "*"
smithay = { version = "*", default-features = false, features = ["backend_gbm"] }
tracing = "0.1"
wayland-client = "0.31"
wayland-protocols = { version = "0.32", features = ["client", "staging", "unstable"] }
wayland-protocols-misc = { version = "0.3", features = ["client"] }
wayland-protocols-wlr = { version = "0.3", features = ["client"] }
xkbcommon = "*"
