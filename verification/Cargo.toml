[package]
name = "minnty_sound_server"
version = "1.0.0"
edition = "2021"
publish = false

[dependencies]
bytes = "=1.12.1"
serde = { version = "=1.0.229", features = ["derive"] }
serde_json = "=1.0.154"
tokio = { version = "=1.54.1", features = ["full"] }
chrono = "=0.4.45"
rand = "=0.10.3"
axum = "=0.8.9"
async-trait = "=0.1.92"
mdns-sd = "=0.21.7"
local-ip-address = "=0.6.13"
open = "=5.4.5"
rtrb = "=0.4.1"
libpulse-binding = "=2.30.1"
dbus = { version = "=0.9.12", features = ["vendored"] }
opus = "=0.4.0"
tray-icon = "*"
wasapi = "*"
