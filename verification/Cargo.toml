[package]
name = "hidapi"
version = "0.1.0"
edition = "2021"
publish = false

[dependencies]
bytemuck = { version = "1", features = ["extern_crate_alloc"] }
libc = "0.2"
windows-sys = { version = "0.48", features = ["Win32_Foundation", "Win32_Security", "Win32_Devices_DeviceAndDriverInstallation", "Win32_Devices_HumanInterfaceDevice", "Win32_Devices_Properties", "Win32_Storage_EnhancedStorage", "Win32_Storage_FileSystem", "Win32_UI_Shell_PropertiesSystem"] }
