[package]
name = "mithic"
version = "0.1.0"
edition = "2021"
publish = false

[dependencies]
base64 = "0.21"
sha2 = "0.10"
regex = "1"
ulid = "1"
chrono = "0.4"
url = "2"
argon2 = "0.5"
bcrypt = "0.15"
jsonwebtoken = "9"
serde = { version = "1", features = ["derive"] }
serde_json = "1"
uuid = { version = "1", features = ["v4"] }
image = { version = "0.25", default-features = false, features = ["png", "jpeg"] }
web-push-native = "*"
http = "1"
sigh = "*"
