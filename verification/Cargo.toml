[package]
name = "willow"
version = "0.1.0"
edition = "2021"
publish = false

[dependencies]
anyhow = "=1.0.104"
field-offset = "=0.3.6"
heck = "=0.3.3"
js-sys = "=0.3.106"
nalgebra = { version = "*", default-features = false, features = ["std"] }
paste = "=1.0.15"
proc-macro2 = "=1.0.107"
quote = "=1.0.47"
syn = { version = "=1.0.109", features = ["full"] }
wasm-bindgen = "=0.2.129"
web-sys = { version = "=0.3.106", features = ["Element", "HtmlCanvasElement", "WebGlBuffer", "WebGlProgram", "WebGlRenderingContext", "WebGlShader", "WebGlUniformLocation"] }
