[package]
name = "alluno_gamepad_sys"
version = "0.1.0"
edition = "2021"
publish = false

[dependencies]
windows = { version = "=0.59.0", features = ["Win32_Devices_DeviceAndDriverInstallation", "Win32_Foundation", "Win32_Security", "Win32_Storage_FileSystem", "Win32_System_IO", "Win32_System_Threading"] }
