[package]
name = "event_transport"
version = "0.1.0"
edition = "2021"
publish = false

[dependencies]
cursive = "=0.21.1"
js-sys = "=0.3.106"
log = "=0.4.34"
unicode-width = "=0.2.2"
wasm-bindgen = "=0.2.129"
web-sys = { version = "=0.3.106", features = ["CanvasRenderingContext2d", "ContextAttributes2d", "DedicatedWorkerGlobalScope", "Element", "EventTarget", "HtmlCanvasElement", "HtmlDivElement", "HtmlElement", "HtmlInputElement", "ImageBitmap", "KeyboardEvent", "MouseEvent", "OffscreenCanvas", "TextMetrics", "Touch", "TouchEvent", "TouchList"] }
