[package]
name = "ntfy"
version = "0.1.0"
edition = "2021"
publish = false

[dependencies]
regex = "1"
rand = "0.8"
uuid = { version = "1", features = ["v4"] }
chrono = "0.4"
bcrypt = "0.15"
base64 = "0.22"
url = "2"
mail-parser = "0.9"
mime_guess = "2"
serde = { version = "1", features = ["derive"] }
serde_json = "1"
serde_urlencoded = "0.7"
tokio = { version = "1", features = ["full"] }
tokio-stream = { version = "0.1", features = ["sync"] }
tokio-util = { version = "0.7", features = ["io"] }
futures = "0.3"
axum = "0.8"
sqlx = { version = "0.8", default-features = false, features = ["runtime-tokio", "sqlite", "derive"] }
reqwest = { version = "0.12", default-features = false, features = ["json", "rustls-tls"] }
lettre = { version = "0.11", default-features = false, features = ["builder", "smtp-transport", "tokio1", "tokio1-rustls-tls"] }
web-push = { version = "*", default-features = false, features = ["hyper-client"] }
yup-oauth2 = "*"
clap = { version = "4", features = ["derive"] }
tracing = "0.1"
tracing-subscriber = "0.3"
rust-embed = "8"
anyhow = "1"
config = { version = "0.14", default-features = false, features = ["yaml"] }
governor = "0.6"
dashmap = "6"
