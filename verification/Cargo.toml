[package]
name = "c9watch"
version = "0.1.0"
edition = "2021"
publish = false

[dependencies]
axum = { version = "0.7", features = ["ws"] }
dirs = "5"
libc = "0.2"
mime_guess = "2"
rust-embed = "8"
serde = { version = "1", features = ["derive"] }
serde_json = "1"
sysinfo = "0.32"
tokio = { version = "1", features = ["macros", "net", "rt", "sync"] }
windows = { version = "0.58", features = ["Win32_Foundation", "Win32_System_Threading"] }
