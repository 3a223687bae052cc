[package]
name = "whisperia"
version = "0.1.0"
edition = "2021"
publish = false

[dependencies]
anyhow = "1"
clap = { version = "4", features = ["derive"] }
cocoa = "=0.27.0"
cpal = "=0.18.2"
directories = "=6.0.0"
enigo = "=0.6.1"
global-hotkey = "=0.9.0"
reqwest = { version = "=0.13.5", default-features = false, features = ["json"] }
serde = { version = "1", features = ["derive"] }
sysinfo = "=0.39.6"
tokio = { version = "1", features = ["rt-multi-thread", "signal"] }
toml = "=1.1.8"
tracing = "0.1"
tracing-subscriber = { version = "0.3", features = ["env-filter"] }
whisper-rs = "=0.16.0"
windows = { version = "=0.61.3", features = ["Win32_Foundation", "Win32_UI_WindowsAndMessaging"] }
x11rb = "=0.14.0"
