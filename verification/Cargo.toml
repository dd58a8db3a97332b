[package]
name = "nokhwa_bindings_windows"
version = "0.4.0"
edition = "2021"
publish = false

[dependencies]
lazy_static = "1.4"
nokhwa-core = "0.1"
windows = { version = "0.43", features = ["Win32_Foundation", "Win32_Media_MediaFoundation", "Win32_Media_DirectShow", "Win32_Media_KernelStreaming", "Win32_System_Com"] }
