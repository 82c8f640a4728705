[package]
name = "qingjian_windows"
version = "0.1.0"
edition = "2021"
publish = false

[dependencies]
toml_edit = "*"
windows = { version = "*", features = ["Win32_Foundation", "Win32_Security", "Win32_System_Threading", "Win32_System_RemoteDesktop"] }
