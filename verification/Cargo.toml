[package]
name = "rsiss"
version = "0.1.0"
edition = "2021"
publish = false

[dependencies]
chrono = "0.4"
console_error_panic_hook = "0.1"
crossterm = "0.27"
js-sys = "0.3"
ratatui = "0.26"
reqwest = { version = "0.11", features = ["blocking", "json"] }
rgeo = "*"
serde = { version = "1", features = ["derive"] }
serde-wasm-bindgen = "*"
serde_json = "1"
wasm-bindgen = "0.2"
wasm-bindgen-futures = "0.4"
