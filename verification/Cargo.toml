[package]
name = "remote_desktop"
version = "0.1.0"
edition = "2021"
publish = false

[dependencies]
unicode-normalization = "=0.1.26"
ashpd = { version = "=0.13.13", default-features = false, features = ["tokio", "remote_desktop", "screencast"] }
tokio = { version = "=1.54.1", features = ["rt-multi-thread", "time"] }
once_cell = "=1.21.4"
log = "=0.4.35"
tauri = { version = "=2.12.5", default-features = false }
