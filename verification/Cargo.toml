[package]
name = "signalbot"
version = "0.1.0"
edition = "2021"
publish = false

[dependencies]
jsonwebtoken = "9"
nix = { version = "*", features = ["signal"] }
qrcode = { version = "*", default-features = false, features = ["svg"] }
rocket = { version = "0.5", features = ["json"] }
serde = { version = "1", features = ["derive"] }
serde_json = "1"
simple_logger = "*"
tokio = { version = "1", features = ["full"] }
uuid = { version = "1", features = ["v4"] }
