[package]
name = "mykvm"
version = "0.9.12"
edition = "2021"
publish = false

[dependencies]
base64 = "0.22"
log = "0.4"
quinn = { version = "0.11", default-features = false, features = ["log", "runtime-tokio", "rustls-ring"] }
rcgen = "0.13"
rmp-serde = "1"
serde = { version = "1", features = ["derive"] }
socket2 = { version = "0.5", features = ["all"] }
tokio = { version = "1", features = ["rt-multi-thread", "sync", "time"] }
windows-sys = { version = "0.60", features = ["Win32_Foundation", "Win32_System_LibraryLoader", "Win32_System_StationsAndDesktops", "Win32_System_Threading", "Win32_UI_Input_KeyboardAndMouse", "Win32_UI_WindowsAndMessaging"] }
