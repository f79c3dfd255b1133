[package]
name = "known_folders"
version = "1.1.0"
edition = "2021"
publish = false

[dependencies.windows-sys]
version = "0.48"
features = ["Win32_Foundation", "Win32_Globalization", "Win32_System_Com", "Win32_UI_Shell"]
