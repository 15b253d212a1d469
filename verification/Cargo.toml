[package]
name = "typeset_bridge"
version = "0.1.0"
edition = "2021"
publish = false

[dependencies]
typst = "=0.15.1"
serde_json = "=1.0.154"
wasm-bindgen = "=0.2.129"
js-sys = "=0.3.106"
web-sys = { version = "=0.3.106", features = ["console", "ImageData"] }
serde-wasm-bindgen = "=0.6.5"

[dev-dependencies]
typst-assets = { version = "=0.15.1", features = ["fonts"] }
