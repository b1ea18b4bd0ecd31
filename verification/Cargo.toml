[package]
name = "tauri"
version = "0.1.0"
edition = "2021"
publish = false

[dependencies]
anyhow = "=1.0.104"
quote = "=1.0.47"
runas = "=1.2.0"
tiny_http = "=0.12.0"
urlencoding = "=1.3.3"
webview_official = "=0.2.0"
