[package]
name = "generative_art"
version = "0.1.0"
edition = "2021"
publish = false

[dependencies]
rand = "0.8"
wasm-bindgen = "0.2"
web-sys = { version = "0.3", features = ["CanvasGradient", "CanvasRenderingContext2d", "Document", "DomRect", "Element", "HtmlCanvasElement", "HtmlElement", "Window"] }
console_error_panic_hook = "0.1"
wee_alloc = "0.4"
