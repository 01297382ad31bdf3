[package]
name = "tauri_webdriver"
version = "0.1.0"
edition = "2021"
publish = false

[dependencies]
which = "*"
win32job = "*"
