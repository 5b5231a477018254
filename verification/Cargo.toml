[package]
name = "sysnotify"
version = "0.1.0"
edition = "2021"
publish = false

[dependencies]
anyhow = "1"
futures-util = "0.3"
libc = "0.2"
notify-rust = "4"
tokio = { version = "1", features = ["macros", "rt-multi-thread"] }
tokio-udev = "0.9"
zbus = "5"
