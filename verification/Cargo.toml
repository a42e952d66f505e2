[package]
name = "newsletter_admin"
version = "0.1.0"
edition = "2021"
publish = false

[dependencies]
validator = "0.16"
actix-web = "4"
actix-web-flash-messages = { version = "0.4", features = ["cookies"] }
secrecy = { version = "0.8", features = ["serde"] }
serde = { version = "1", features = ["derive"] }
anyhow = "1"
tracing = "0.1"
sqlx = { version = "0.7", default-features = false, features = ["runtime-tokio-rustls", "postgres"] }
reqwest = { version = "0.11", default-features = false }
