[package]
name = "material_dioxus"
version = "0.1.0"
edition = "2021"
publish = false

[dependencies]
dioxus = "=0.4.3"
gloo = "=0.8.1"
rand = "=0.8.8"
wasm-bindgen = "=0.2.129"
web-sys = { version = "=0.3.106", features = ["CustomEvent", "Document", "Element", "Event", "EventTarget", "InputEvent", "Node", "ValidityState", "Window"] }
yew = "=0.18.0"
