[package]
name = "headlines"
version = "0.1.0"
edition = "2021"
publish = false

[dependencies]
url = "2"
serde_json = "1"
serde = { version = "1", features = ["derive"] }
thiserror = "1"
ureq = "2"
reqwest = { version = "0.11", default-features = false, features = ["rustls-tls"] }
eframe = { version = "0.19", features = ["persistence"] }
tracing = "0.1"
tracing-subscriber = "0.3"
gloo-timers = "0.2"
tracing-wasm = "0.2"
wasm-bindgen-futures = "0.4"
