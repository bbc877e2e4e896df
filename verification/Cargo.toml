[package]
name = "capture_core"
version = "0.1.0"
edition = "2021"
publish = false

[dependencies]
anyhow = "=1.0.104"
cocoa = "=0.27.0"
core-media-rs = "=0.3.5"
cpal = "0.15"
log = "=0.4.34"
objc = "=0.2.7"
screencapturekit = "0.3"
serde = { version = "=1.0.229", features = ["derive"] }
windows = { version = "0.61", features = ["Win32_Media_Audio", "Win32_Media_Audio_Endpoints", "Win32_System_Com"] }
