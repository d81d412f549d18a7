[package]
name = "led_snake"
version = "0.1.0"
edition = "2021"
publish = false

[dependencies]
anyhow = "1"
futures-util = { version = "0.3", default-features = false, features = ["sink", "std"] }
rand = "0.9"
tokio = { version = "1", features = ["macros", "net", "rt", "time"] }
tokio-tungstenite = { version = "*", features = ["rustls-tls-webpki-roots"] }

[dev-dependencies]
serde_json = "1"
