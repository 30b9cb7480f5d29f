[package]
name = "cube_field"
version = "0.1.0"
edition = "2021"
publish = false

[dependencies]
js-sys = "*"
nalgebra = "*"
wasm-bindgen = "*"
web-sys = { version = "*", features = ["CssStyleDeclaration", "Document", "Element", "HtmlCanvasElement", "HtmlElement", "Node", "WebGlBuffer", "WebGlProgram", "WebGlRenderingContext", "WebGlShader", "WebGlUniformLocation", "Window"] }
