[package]
name = "argon"
version = "0.1.5"
edition = "2021"
publish = false

[dependencies]
aes = "0.8"
anyhow = "1"
axum = "0.8"
axum-governor = "*"
base64 = "0.22"
clap = { version = "4", features = ["derive"] }
directories = "*"
futures-util = "0.3"
governor = "*"
heed = "*"
meilisearch-sdk = "*"
rand = "*"
regex = "1"
reqwest = { version = "0.12", default-features = false, features = ["json", "rustls-tls"] }
serde = { version = "1", features = ["derive"] }
serde_json = "1"
sha2 = "0.10"
tokio = { version = "1", features = ["full"] }
tokio-tungstenite = "*"
urlencoding = "2"
