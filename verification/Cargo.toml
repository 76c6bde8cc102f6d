[package]
name = "afterglow"
version = "0.1.0"
edition = "2021"
publish = false

[dependencies]
futures = "0.3"
async-std = { version = "1", features = ["unstable"] }
dodrio = "*"
gloo = "*"
js-sys = "0.3"
log = "0.4"
serde-wasm-bindgen = "*"
wasm-bindgen = "0.2"
wasm-bindgen-futures = "0.4"
web-sys = { version = "0.3", features = ["CustomEvent", "CustomEventInit", "Document", "Element", "Event", "EventTarget", "History", "HtmlElement", "Node", "PopStateEvent", "Window"] }
