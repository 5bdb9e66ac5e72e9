[package]
name = "bartender"
version = "0.1.0"
edition = "2021"
publish = false

[dependencies]
dbus = { version = "=0.9.12", features = ["vendored"] }
i3ipc = "=0.10.1"
libpulse-binding = "=2.30.1"
notify-rust = "=4.18.2"
serde = { version = "=1.0.229", features = ["derive"] }
serde_json = "=1.0.154"
