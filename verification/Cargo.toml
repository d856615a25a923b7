[package]
name = "aleph_naught"
version = "0.1.0"
edition = "2021"
publish = false

[dependencies]
rune = "0.7"
runestick = "0.7"
wasm-bindgen = "0.2"
wasm-bindgen-futures = "0.4"
js-sys = "0.3"
console_error_panic_hook = "0.1"
wee_alloc = "0.4"
web-sys = { version = "0.3", features = ["console", "Document", "Element", "Event", "EventTarget", "HtmlElement", "HtmlButtonElement", "HtmlInputElement", "KeyboardEvent", "MouseEvent", "Node", "Request", "RequestInit", "RequestMode", "Response", "Window"] }
