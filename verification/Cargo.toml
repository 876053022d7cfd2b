[package]
name = "http_listener"
version = "0.1.0"
edition = "2021"
publish = false

[dependencies]
httparse = "1"
bytes = "1"
tokio = { version = "1", default-features = false, features = ["net", "io-util", "rt"] }
