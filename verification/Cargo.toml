[package]
name = "win_watcher"
version = "0.1.0"
edition = "2021"
publish = false

[dependencies]
base64 = "=0.23.1"
crossbeam-channel = "=0.5.17"
mail-builder = "=0.5.0"
mail-send = "=0.6.2"
serde = { version = "=1.0.229", features = ["derive"] }
windows-sys = { version = "=0.61.2", features = ["Win32_Foundation", "Win32_Security", "Win32_Storage_FileSystem", "Win32_System_IO"] }
zip = "=9.0.5"
