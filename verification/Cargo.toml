[package]
name = "topsy_turvy"
version = "0.1.0"
edition = "2021"
publish = false

[dependencies]
argon2 = "0.5"
chacha20poly1305 = "0.10"
hex = "0.4"
sha2 = "0.10"
strip-ansi-escapes = "0.2"
axum = "0.7"
chrono = "0.4"
dotenv = "0.15"
futures = "0.3"
libsql = { version = "*", default-features = false, features = ["core"] }
reqwest = { version = "0.12", default-features = false, features = ["json"] }
serde = { version = "1", features = ["derive"] }
tempfile = "3"
tokio = { version = "1", features = ["full"] }
tracing = "0.1"
tracing-subscriber = "0.3"
