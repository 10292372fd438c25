[package]
name = "stay_awake"
version = "0.1.0"
edition = "2021"
publish = false

[dependencies]
clap = { version = "=4.6.7", features = ["derive"] }
colored = "=2.2.0"
windows = { version = "=0.52.0", features = ["Win32_System_Power"] }
