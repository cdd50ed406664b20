[package]
name = "logdrv"
version = "0.1.0"
edition = "2021"
publish = false

[dependencies]
postcard = { version = "=1.1.3", default-features = false, features = ["alloc"] }
clap = { version = "=4.6.7", features = ["derive", "cargo"] }
tokio = { version = "=1.54.1", features = ["macros", "rt-multi-thread", "signal"] }
wdk = "=0.4.1"
wdk-alloc = "=0.4.1"
wdk-panic = "=0.4.1"
wdk-sys = "=0.5.1"
windows = { version = "=0.58.0", features = ["Win32_Foundation", "Win32_Security", "Win32_Storage_FileSystem", "Win32_System_IO", "Win32_System_Memory", "Win32_System_Threading"] }
