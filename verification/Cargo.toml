[package]
name = "omnibox"
version = "0.1.0"
edition = "2021"
publish = false

[dependencies]
serde = { version = "=1.0.229", features = ["derive"] }
serde_json = "=1.0.154"
sha2 = "=0.10.9"
base64 = "=0.22.1"
open = "=5.4.5"
windows-sys = { version = "=0.59.0", features = ["Win32_Foundation", "Win32_Networking_WinHttp", "Win32_Networking_WinSock", "Win32_NetworkManagement_IpHelper", "Win32_NetworkManagement_Ndis", "Win32_Storage_FileSystem", "Win32_System_IO", "Win32_System_Registry", "Win32_System_SystemInformation", "Win32_System_LibraryLoader", "Win32_Globalization", "Win32_System_Power", "Win32_Devices_DeviceAndDriverInstallation", "Win32_Graphics_Gdi", "Win32_System_Com", "Win32_UI_Shell", "Win32_UI_Shell_Common", "Win32_UI_Controls", "Win32_UI_Controls_Dialogs", "Win32_UI_WindowsAndMessaging", "Win32_System_Threading", "Win32_Security", "Win32_System_ProcessStatus", "Win32_System_Time", "Win32_System_WindowsProgramming", "Win32_System_SystemServices", "Win32_System_Diagnostics_ToolHelp"] }
