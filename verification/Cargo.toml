[package]
name = "leptos-radix-ui"
version = "0.1.0"
edition = "2021"
publish = false

[dependencies]
leptos = { version = "0.8", features = ["ssr"] }
leptos_meta = { version = "0.8", features = ["ssr"] }
leptos_axum = { version = "0.8" }
axum = { version = "0.8" }
tokio = { version = "1", features = ["rt-multi-thread", "macros", "net"] }
wasm-bindgen = { version = "0.2" }
web-sys = { version = "0.3", features = ["Window", "Document", "Element", "HtmlElement", "Event", "EventTarget", "KeyboardEvent", "MouseEvent", "DomTokenList", "console"] }
console_error_panic_hook = { version = "0.1" }
