[package]
name = "node_canvas"
version = "0.1.0"
edition = "2021"
publish = false

[dependencies]
console_error_panic_hook = "*"
leptos = { version = "*", features = ["csr"] }
reactive_stores = "*"
wasm-bindgen = "*"
web-sys = { version = "*", features = ["FocusEvent", "MouseEvent", "WheelEvent"] }
