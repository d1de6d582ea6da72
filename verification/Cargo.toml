[package]
name = "uledger"
version = "0.1.0"
edition = "2021"
publish = false

[dependencies]
regex = "=1.13.1"
hex = "=0.4.3"
rand = "=0.8.8"
argon2 = { version = "=0.5.3", features = ["std"] }
base64 = "=0.22.1"
grass = "=0.13.4"
chrono = "=0.4.45"
serde = { version = "=1.0.229", features = ["derive"] }
serde_json = "=1.0.154"
axum = "=0.8.9"
tokio = { version = "=1.54.1", features = ["full"] }
askama = "=0.14.0"
askama_web = { version = "=0.14.7", features = ["axum-0.8"] }
figment = { version = "=0.10.19", features = ["env"] }
tower-sessions = { version = "=0.14.0", features = ["signed"] }
tower-http = { version = "=0.6.11", features = ["compression-full", "decompression-full", "set-header"] }
uuid = { version = "=1.29.1", features = ["v7", "serde"] }
thiserror = "=2.0.21"
tracing = "=0.1.44"
tracing-subscriber = "=0.3.23"
dotenvy = "=0.15.7"
sqlx = { version = "=0.8.6", default-features = false, features = ["postgres", "runtime-tokio", "uuid", "chrono", "macros"] }
lettre = { version = "=0.11.23", default-features = false, features = ["builder", "smtp-transport", "tokio1", "tokio1-rustls-tls", "hostname"] }
reqwest = { version = "=0.12.28", default-features = false, features = ["json", "gzip", "rustls-tls"] }
mini-moka = "=0.10.3"
