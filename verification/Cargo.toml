[package]
name = "webgl_surface"
version = "0.1.0"
edition = "2021"
publish = false

[dependencies]
arrayvec = "*"
glow = "*"
js-sys = "*"
wasm-bindgen = "*"
web-sys = { version = "*", features = ["Window", "Document", "Element", "HtmlCanvasElement", "WebGl2RenderingContext"] }
