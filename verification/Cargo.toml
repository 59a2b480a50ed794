[package]
name = "autocoin"
version = "0.1.0"
edition = "2021"
publish = false

[dependencies]
chrono = "*"
uuid = { version = "*", features = ["v4"] }
flate2 = "*"
serde = { version = "*", features = ["derive"] }
serde_json = "*"
tokio = { version = "*", features = ["full"] }
futures-util = "*"
tokio-tungstenite = "*"
reqwest = { version = "*", default-features = false, features = ["json"] }
hmac = "*"
sha2 = "*"
hex = "*"
jsonwebtoken = "*"
urlencoding = "*"
toml = "*"
dotenvy = "*"
