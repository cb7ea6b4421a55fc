[package]
name = "async_timer"
version = "1.0.0"
edition = "2021"
publish = false

[dependencies]
libc = "=0.2.191"
error-code = "=3.4.0"
futures-core = { version = "=0.3.34", default-features = false }
tokio = { version = "=1.54.1", default-features = false, features = ["net", "rt"] }
wasm-bindgen = "0.2"
