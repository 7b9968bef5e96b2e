[package]
name = "webgl_core"
version = "0.1.0"
edition = "2021"
publish = false

[dependencies]
regex = "=1.13.1"
serde = { version = "=1.0.229", features = ["derive"] }
serde-wasm-bindgen = "=0.6.5"
wasm-bindgen = "=0.2.130"
wasm-bindgen-futures = "0.4"
js-sys = "=0.3.107"
web-sys = { version = "=0.3.107", features = ["WebGl2RenderingContext", "WebGlBuffer", "WebGlTexture", "WebGlSampler", "WebGlSync", "HtmlCanvasElement", "Window"] }
console_error_panic_hook = "=0.1.7"
