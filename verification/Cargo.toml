[package]
name = "ankra"
version = "0.1.0"
edition = "2021"
publish = false

[dependencies]
anyhow = "1"
csv = "1"
libc = "0.2"
log = "0.4"
mio = "=0.7.14"
mio-timerfd = "=0.2.0"
serde = { version = "1", features = ["derive"] }
thiserror = "1"
wayland-client = "=0.29.5"
wayland-protocols = { version = "=0.29.5", features = ["client", "unstable_protocols"] }
xdg = "2"
