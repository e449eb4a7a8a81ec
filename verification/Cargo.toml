[package]
name = "async-wsocket"
version = "0.1.0"
edition = "2021"
publish = false

[dependencies]
async-utility = "0.2"
futures-util = { version = "0.3", default-features = false, features = ["std", "sink"] }
js-sys = "0.3"
thiserror = "1"
tokio = { version = "1", default-features = false, features = ["macros", "net", "rt", "sync", "time"] }
tokio-socks = "0.5"
tokio-tungstenite = { version = "0.24", features = ["rustls-tls-webpki-roots"] }
url = "2"
wasm-bindgen = "0.2"
web-sys = { version = "0.3", features = ["Blob", "MessageEvent"] }
