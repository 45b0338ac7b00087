[package]
name = "pg_durable"
version = "0.2.8"
edition = "2021"
publish = false

[dependencies]
base64 = "=0.22.1"
duroxide = "=0.1.29"
pgrx = { version = "=0.16.1", default-features = false, features = ["pg17"] }
reqwest = { version = "=0.12.28", default-features = false, features = ["multipart", "rustls-tls"] }
serde = { version = "=1.0.229", features = ["derive"] }
serde_json = "=1.0.154"
sqlx = { version = "=0.8.6", default-features = false, features = ["postgres", "runtime-tokio"] }
tokio = { version = "1", features = ["net"] }
