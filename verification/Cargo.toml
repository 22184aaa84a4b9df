[package]
name = "sync_edit"
version = "0.1.0"
edition = "2021"
publish = false

[dependencies]
memchr = "=2.8.3"
blake3 = "=1.8.7"
base64 = "=0.21.7"
serde = { version = "=1.0.229", features = ["derive"] }
serde_json = "=1.0.154"
postcard = { version = "=1.1.3", features = ["use-std"] }
tokio = { version = "=1.54.1", features = ["full"] }
tokio-util = { version = "=0.7.20", features = ["codec"] }
futures-util = { version = "=0.3.34", features = ["sink"] }
futures = "=0.3.34"
bytes = "=1.12.1"
anyhow = "=1.0.104"
log = "=0.4.35"
env_logger = "=0.10.2"
tracing = "=0.1.44"
zip = { version = "=0.6.6", default-features = false, features = ["deflate"] }
ordered-float = "=3.9.2"
async-compat = "0.2"
windows-sys = { version = "=0.52.0", features = ["Win32_Foundation", "Win32_System_Memory", "Win32_System_SystemInformation", "Win32_System_Threading", "Win32_System_ProcessStatus", "Win32_System_LibraryLoader", "Win32_System_Diagnostics_Debug", "Win32_UI_WindowsAndMessaging", "Win32_System_SystemServices"] }
