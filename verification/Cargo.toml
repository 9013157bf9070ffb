[package]
name = "netprobe"
version = "0.1.0"
edition = "2021"
publish = false

[dependencies]
anyhow = "=1.0.104"
async-trait = "=0.1.92"
bytes = "=1.12.1"
chrono = "=0.4.45"
clap = { version = "=4.6.7", features = ["derive"] }
fluent = "=0.16.1"
fluent-syntax = "=0.11.1"
ratatui = "=0.29.0"
rustls = { version = "=0.23.46", default-features = false, features = ["ring", "std", "tls12"] }
rustls-native-certs = "=0.8.5"
rustls-pemfile = "=2.2.0"
serde_json = "=1.0.154"
tokio = { version = "=1.54.1", features = ["full"] }
unic-langid = "=0.9.6"
