[package]
name = "blob_device"
version = "0.1.0"
edition = "2021"
publish = false

[dependencies]
arc-swap = "1.5"
dbs-uhttp = "0.3"
fuse-backend-rs = "0.9"
http = "0.2"
log = "0.4"
mio = { version = "0.8", features = ["os-poll", "os-ext"] }
nydus-utils = "0.3"
serde = { version = "1.0", features = ["derive"] }
serde_json = "1.0"
url = "2.1"
vm-memory = "0.9"
