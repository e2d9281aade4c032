[package]
name = "right_click_manager"
version = "0.1.0"
edition = "2021"
publish = false

[dependencies]
windows = { version = "=0.48.0", features = ["Win32_Foundation", "Win32_System_Registry", "Win32_UI_WindowsAndMessaging", "Win32_UI_Controls", "Win32_System_LibraryLoader", "Win32_Security", "Win32_System_Threading", "Win32_Graphics_Gdi"] }
