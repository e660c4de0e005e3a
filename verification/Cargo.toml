[package]
name = "soxy"
version = "0.1.0"
edition = "2021"
publish = false

[dependencies]
crossbeam-channel = "=0.5.17"
log = "=0.4.34"
simplelog = "=0.12.2"
windows-sys = { version = "=0.59.0", features = ["Win32_Foundation", "Win32_Networking_WinSock", "Win32_System_Console", "Win32_System_LibraryLoader", "Win32_System_SystemServices"] }
