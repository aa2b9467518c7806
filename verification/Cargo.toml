[package]
name = "winapi_wrapper"
version = "0.1.0"
edition = "2021"
publish = false

[dependencies]
winapi = { version = "0.3", features = ["winuser", "windef", "libloaderapi", "errhandlingapi"] }
