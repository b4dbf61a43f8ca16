[package]
name = "lightyear"
version = "0.1.0"
edition = "2021"
publish = false

[dependencies]
async-channel = "2"
bevy = { version = "0.13", default-features = false }
gloo-timers = { version = "0.3", features = ["futures"] }
js-sys = "0.3"
tokio = { version = "1", features = ["macros", "sync", "time"] }
tracing = "0.1"
wasm-bindgen = "0.2"
wasm-bindgen-futures = "0.4"
