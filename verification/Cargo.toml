[package]
name = "game_patches"
version = "0.1.0"
edition = "2021"
publish = false

[dependencies]
libmem = { version = "=5.1.4", default-features = false }
windows = { version = "=0.58.0", features = ["Win32_Foundation", "Win32_System_Memory", "Win32_System_Threading", "Win32_System_LibraryLoader", "Win32_System_SystemServices", "Win32_System_Diagnostics_Debug", "Win32_System_Console", "Win32_UI_Input_KeyboardAndMouse", "Win32_UI_WindowsAndMessaging", "Wdk_System_Threading"] }
anyhow = "=1.0.104"
tracing = "=0.1.44"
tracing-subscriber = { version = "=0.3.23", features = ["env-filter", "fmt"] }
tracing-appender = "=0.2.5"
log = "=0.4.35"
serde = { version = "=1.0.229", features = ["derive"] }
toml = "=0.9.8"
enable-ansi-support = "=0.3.1"
winresource = "=0.1.34"
