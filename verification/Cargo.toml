[package]
name = "uiua_bridge"
version = "0.1.0"
edition = "2021"
publish = false

[dependencies]
uiua = { version = "=0.14.1", default-features = false, features = ["image", "gif", "audio_encode"] }
serde = { version = "=1.0.229", features = ["derive"] }
serde_json = "=1.0.154"
serde-wasm-bindgen = "=0.6.5"
wasm-bindgen = "=0.2.129"
js-sys = "=0.3.106"
