[package]
name = "loopcap"
version = "0.1.0"
edition = "2021"
publish = false

[dependencies]
chrono = "=0.4.45"
windows = { version = "=0.58.0", features = ["Win32_Media_Audio", "Win32_System_Com", "Win32_Foundation"] }

[dev-dependencies]
hound = "=3.5.1"
