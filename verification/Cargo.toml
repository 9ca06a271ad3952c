[package]
name = "atem_ip_patchbay"
version = "0.1.0"
edition = "2021"
publish = false

[dependencies]
regex = "=1.13.1"
roxmltree = "=0.20.0"
uuid = { version = "=1.29.0", features = ["v4"] }
anyhow = "=1.0.104"
axum = "=0.7.9"
clap = { version = "=4.6.7", features = ["derive"] }
dirs = "=5.0.1"
libc = "=0.2.191"
local-ip-address = "=0.6.13"
log = "=0.4.35"
native-tls = "=0.2.18"
once_cell = "=1.21.4"
serde = { version = "=1.0.229", features = ["derive"] }
serde_json = "=1.0.154"
sysinfo = "=0.31.4"
tiny_http = "=0.12.0"
tokio = { version = "=1.54.1", features = ["full"] }
tower-http = { version = "=0.5.2", features = ["fs", "cors"] }
ureq = { version = "=2.12.1", features = ["native-tls", "json"] }
which = "=6.0.3"
grafton-ndi = { version = "=0.11.0", features = ["image-encoding"] }
libomt = "=0.1.5"
