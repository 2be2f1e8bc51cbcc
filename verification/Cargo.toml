[package]
name = "super_snack_bros"
version = "0.1.0"
edition = "2021"
publish = false

[dependencies]
console_error_panic_hook = "0.1"
glam = "*"
rcade-plugin-input-classic = "*"
strum = { version = "*", features = ["derive"] }
strum_macros = "*"
wasm-bindgen = "0.2"
wasm-bindgen-futures = "0.4"
web-sys = { version = "0.3", features = ["console", "Window", "Document", "Element", "HtmlElement", "HtmlCanvasElement", "HtmlImageElement", "CanvasRenderingContext2d", "CssStyleDeclaration", "Event", "Node"] }
