[package]
name = "syncplay_core"
version = "0.1.0"
edition = "2021"
publish = false

[dependencies]
regex = "1"
sha2 = "0.10"
url = "2"
shell-words = "1"
urlencoding = "2"
rand = "0.8"
serde = { version = "1", features = ["derive"] }
serde_json = "1"
tokio = { version = "1", features = ["full"] }
chrono = "0.4"
tracing = "0.1"
tracing-subscriber = { version = "0.3", features = ["env-filter"] }
anyhow = "1"
parking_lot = "0.12"
rustls = "0.21"
rustls-native-certs = "0.6"
tokio-rustls = "0.24"
tempfile = "3"
futures = "0.3"
tokio-util = { version = "0.7", features = ["codec"] }
async-trait = "0.1"
