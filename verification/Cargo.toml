[package]
name = "sctk"
version = "0.1.0"
edition = "2021"
publish = false

[dependencies]
calloop = "0.9"
log = "0.4"
thiserror = "1"
wayland-client = "0.29"
wayland-protocols = { version = "0.29", features = ["client", "unstable_protocols"] }
