[package]
name = "tauri-plugin-android-player"
version = "0.2.1"
edition = "2021"
publish = false

[dependencies]
serde = { version = "1", features = ["derive"] }
serde_json = "1"
thiserror = "2"
bytemuck = "1"
jni = "0.21"
tauri = { version = "2", default-features = false }
tauri-plugin-fs = { version = "2", default-features = false }
