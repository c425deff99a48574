[package]
name = "keyborg"
version = "0.1.0"
edition = "2021"
publish = false

[dependencies]
wasm-bindgen = "0.2"
js-sys = "0.3"
web-sys = { version = "0.3", features = ["Window", "Document", "Element", "HtmlElement", "Node", "ShadowRoot", "Event", "EventTarget", "FocusEvent", "KeyboardEvent", "MouseEvent", "CustomEvent", "CustomEventInit", "console"] }
gloo-events = "0.2"
