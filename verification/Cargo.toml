[package]
name = "desktop_automation"
version = "0.1.0"
edition = "2021"
publish = false

[dependencies]
enigo = "=0.6.1"
napi = { version = "=3.15.0", features = ["napi5"] }
napi-derive = "=3.6.13"
once_cell = "=1.21.4"
rand = "=0.9.5"
x11rb = "=0.13.2"
windows = { version = "=0.58.0", features = ["Win32_Foundation", "Win32_Graphics_Gdi", "Win32_UI_WindowsAndMessaging", "Win32_UI_Input_KeyboardAndMouse"] }
