[package]
name = "system_recorder"
version = "0.1.0"
edition = "2021"
publish = false

[dependencies]
eframe = { version = "=0.34.3", default-features = false, features = ["glow", "default_fonts"] }
egui = "=0.34.3"
env_logger = { version = "0.11", default-features = false }
hound = "=3.5.1"
log = "0.4"
nnnoiseless = { version = "=0.5.2", default-features = false }
rfd = { version = "=0.15.4", default-features = false, features = ["xdg-portal", "async-std"] }
serde = { version = "1", features = ["derive"] }
serde_json = "1"
thiserror = "2"
windows = { version = "=0.62.2", features = ["Win32_Foundation", "Win32_Media_Audio", "Win32_System_Com", "Win32_System_Com_StructuredStorage", "Win32_System_ProcessStatus", "Win32_System_SystemInformation", "Win32_System_Threading", "Win32_System_Variant", "Win32_UI_Shell_PropertiesSystem", "Win32_Security"] }
windows-core = "=0.62.2"
windows-version = "0.1"
