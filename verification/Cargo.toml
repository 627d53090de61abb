[package]
name = "microwave"
version = "0.1.0"
edition = "2021"
publish = false

[dependencies]
iced = { version = "=0.13.1", default-features = false, features = ["tokio"] }
rodio = { version = "=0.19.0", default-features = false, features = ["wav"] }
tokio = { version = "=1.54.1", features = ["macros", "time"] }
windows = { version = "=0.54.0", features = ["Win32_Foundation", "Win32_Devices_Properties", "Win32_Media_Audio", "Win32_Media_Audio_Endpoints", "Win32_System_Com", "Win32_System_Com_StructuredStorage", "Win32_System_Variant", "Win32_UI_Shell_PropertiesSystem"] }
