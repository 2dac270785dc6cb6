[package]
name = "im_conversion_listener"
version = "0.1.0"
edition = "2021"
publish = false

[dependencies]
dll-syringe = "*"
structopt = "0.3"
winapi = { version = "0.3", features = ["imm", "minwindef", "windef", "winuser"] }
windows = { version = "0.48", features = ["Win32_Foundation", "Win32_Globalization", "Win32_System_LibraryLoader", "Win32_System_SystemServices", "Win32_UI_Input_Ime", "Win32_UI_WindowsAndMessaging"] }
windows-sys = { version = "0.48", features = ["Win32_Foundation", "Win32_Globalization", "Win32_Security", "Win32_Storage_FileSystem", "Win32_System_Diagnostics_Debug", "Win32_System_IO", "Win32_System_LibraryLoader", "Win32_System_Mailslots", "Win32_System_SystemServices", "Win32_System_Threading", "Win32_UI_Input_Ime", "Win32_UI_WindowsAndMessaging"] }
