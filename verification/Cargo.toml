[package]
name = "command_bar"
version = "0.1.0"
edition = "2021"
publish = false

[dependencies]
log = "0.4"
objc = "0.2"
tauri = { version = "2", default-features = false }
tauri-plugin-global-shortcut = "2"
