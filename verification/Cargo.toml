[package]
name = "scene_graph"
version = "0.1.0"
edition = "2021"
publish = false

[dependencies]
nalgebra-glm = "=0.21.0"
bytemuck = "*"
wasm-bindgen = "=0.2.129"
js-sys = "=0.3.106"
web-sys = { version = "=0.3.106", features = [
    "console",
    "Window",
    "Document",
    "Element",
    "Event",
    "HtmlElement",
    "HtmlCanvasElement",
    "KeyboardEvent",
    "MouseEvent",
    "WheelEvent",
    "Performance",
    "WebGl2RenderingContext",
    "WebGlShader",
    "WebGlProgram",
    "WebGlBuffer",
    "WebGlVertexArrayObject",
] }
