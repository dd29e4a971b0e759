[package]
name = "winrt_notification"
version = "0.1.0"
edition = "2021"
publish = false

[dependencies]
xml = "=1.4.0"
windows = { version = "=0.52.0", default-features = false, features = ["Data_Xml_Dom", "UI_Notifications", "Foundation", "Win32_Foundation", "Win32_System_LibraryLoader"] }
