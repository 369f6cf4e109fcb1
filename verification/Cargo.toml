[package]
name = "goggin_rs_logger"
version = "0.1.0"
edition = "2021"
publish = false

[dependencies]
log = { version = "0.4", features = ["std"] }
colorized = "1"
serde = { version = "1", features = ["derive"] }
serde_json = "1"
axum = "0.8"
uuid = { version = "1", features = ["v4"] }
dotenvy = "0.15"
gloo-net = { version = "0.6", default-features = false, features = ["http", "json"] }
wasm-bindgen-futures = "0.4"
