[package]
name = "zoh_monitor"
version = "0.1.0"
edition = "2021"
publish = false

[dependencies]
base64 = "=0.22.1"
serde_json = "=1.0.154"
serde = { version = "=1.0.229", features = ["derive"] }
chrono = "=0.4.45"
local-ip-address = "=0.6.13"
rusqlite = { version = "=0.32.1", features = ["bundled"] }
starship-battery = "=0.10.3"
sysinfo = "=0.33.1"
windows = { version = "0.59", features = ["Win32_UI_WindowsAndMessaging", "Win32_System_Threading", "Win32_System_ProcessStatus", "Win32_Foundation"] }
