[package]
name = "remotefs_smb"
version = "0.1.0"
edition = "2021"
publish = false

[dependencies]
remotefs = "*"
chrono = "*"
pavao = "*"
libc = "*"
filetime = "*"
windows-sys = { version = "*", features = ["Win32_Foundation", "Win32_NetworkManagement_WNet"] }
