[package]
name = "desk_shell"
version = "0.1.0"
edition = "2021"
publish = false

[dependencies]
anyhow = "=1.0.104"
serde = { version = "=1.0.229", features = ["derive"] }
thiserror = "=2.0.21"
widestring = "=1.2.1"
windows = { version = "=0.58.0", features = [
    "Win32_Foundation",
    "Win32_Media_Audio",
    "Win32_Media_Audio_Endpoints",
    "Win32_System_Com",
    "Win32_System_Power",
    "Win32_System_Shutdown",
    "Win32_Security",
    "Win32_System_Threading",
    "Devices_Radios",
    "Devices_Enumeration",
    "Devices_Bluetooth",
    "Foundation",
    "Foundation_Collections",
] }
