[package]
name = "todos"
version = "0.1.0"
edition = "2021"
publish = false

[dependencies]
serde = { version = "1", features = ["derive"] }
serde_json = "1"
axum = "0.7"
tokio = { version = "1", features = ["macros", "rt-multi-thread", "net"] }
diesel = { version = "2", features = ["mysql_backend"] }
diesel-async = { version = "*", features = ["mysql"] }
dotenvy = "0.15"
yew = { version = "*", features = ["csr"] }
yew-router = "*"
gloo-net = "*"
wasm-bindgen = "0.2"
wasm-bindgen-futures = "0.4"
web-sys = { version = "0.3", features = ["HtmlInputElement"] }
log = "0.4"
wasm-logger = "0.2"
