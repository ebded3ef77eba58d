[package]
name = "footballers"
version = "0.1.0"
edition = "2021"
publish = false

[dependencies]
rapier2d = "0.11"
wasm-peers = "*"
serde = { version = "1", features = ["derive"] }
serde_json = "1"
wasm-bindgen = "0.2"
js-sys = "0.3"
web-sys = { version = "0.3", features = ["Window", "Document", "Element", "HtmlCanvasElement", "CanvasRenderingContext2d", "HtmlInputElement", "KeyboardEvent", "UrlSearchParams", "Location", "Navigator", "Clipboard"] }
yew = "0.19"
yew-router = "0.16"
log = "0.4"
wasm-logger = "0.2"
console_error_panic_hook = "0.1"
