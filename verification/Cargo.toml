[package]
name = "portlink"
version = "0.1.0"
edition = "2021"
publish = false

[dependencies]
anyhow = "1"
crossbeam-channel = "0.5"
libc = "0.2"
once_cell = "1"
serde = { version = "1", features = ["derive"] }
serde_json = "1"
serialport = { version = "4", default-features = false }
tauri = { version = "2", default-features = false }
tauri-plugin-log = { version = "2", default-features = false }
time = { version = "0.3", features = ["formatting", "local-offset"] }
