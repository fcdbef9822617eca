[package]
name = "wayland_idle_inhibitor"
version = "0.1.0"
edition = "2021"
publish = false

[dependencies]
clap = { version = "*", features = ["derive"] }
lockfile = "*"
signal-hook = "*"
wayland-client = "*"
wayland-protocols = { version = "*", features = ["client", "unstable"] }
