[package]
name = "keysat"
version = "0.2.0"
edition = "2021"
publish = false

[dependencies]
anyhow = "1"
argon2 = "0.5"
axum = "0.7"
base64 = "0.22"
chrono = "0.4"
data-encoding = "2"
dotenvy = "0.15"
ed25519-dalek = { version = "2", features = ["pkcs8", "pem", "rand_core"] }
hex = "0.4"
hmac = "0.12"
html-escape = "0.2"
mime_guess = "2"
pkcs8 = { version = "0.10", features = ["pem"] }
rand = "0.8"
reqwest = { version = "0.12", default-features = false, features = ["json"] }
serde = { version = "1", features = ["derive"] }
serde_json = "1"
sha2 = "0.10"
sqlx = { version = "0.8", default-features = false, features = ["runtime-tokio", "sqlite"] }
subtle = "2"
tokio = { version = "1", features = ["rt-multi-thread", "macros", "sync", "net", "time"] }
tracing = "0.1"
url = "2"
urlencoding = "2"
uuid = { version = "1", features = ["v4"] }
