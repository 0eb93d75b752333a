[package]
name = "leptos_abort"
version = "0.1.0"
edition = "2021"
publish = false

[dependencies]
leptos = { version = "0.4", features = ["csr"] }
leptos_reactive = { version = "0.4", features = ["csr"] }
wasm-bindgen = "0.2"
wasm-bindgen-futures = "0.4"
web-sys = { version = "0.3", features = ["AbortController", "AbortSignal", "RequestInit", "Window"] }
