[package]
name = "verily"
version = "0.1.0"
edition = "2021"
publish = false

[dependencies]
aes-gcm-siv = "=0.12.1"
anyhow = "=1.0.104"
argon2 = "=0.6.0"
axum = "=0.8.9"
derive_more = { version = "=2.1.1", features = ["full"] }
flutter_rust_bridge = { version = "*", default-features = false, features = ["user-utils"] }
http = "=1.5.0"
jsonwebtoken = "=11.1.0"
leptos = { version = "=0.8.22", features = ["ssr"] }
leptos_axum = "=0.8.10"
log = "=0.4.34"
reqwest = { version = "=0.13.5", default-features = false }
serde = { version = "=1.0.229", features = ["derive"] }
serde_json = "=1.0.154"
server_fn = "=0.8.13"
simple_logger = "=5.2.0"
sqlx = { version = "=0.9.0", default-features = false, features = ["sqlite", "migrate", "runtime-tokio"] }
strum = { version = "=0.28.0", features = ["derive"] }
thiserror = "=2.0.21"
tokio = { version = "=1.54.1", features = ["full"] }
tower-http = { version = "=0.6.11", features = ["compression-gzip"] }
uuid = { version = "=1.29.0", features = ["serde"] }
validator = "=0.21.0"
webauthn-rs-core = "=0.5.5"
welds = { version = "=0.5.2", features = ["sqlite", "check"] }
