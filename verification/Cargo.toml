[package]
name = "movie_bot"
version = "0.1.0"
edition = "2021"
publish = false

[dependencies]
regex = "=1.13.1"
serde = { version = "=1.0.229", features = ["derive"] }
serde_json = "=1.0.154"
anyhow = "=1.0.104"
dotenv = "=0.15.0"
tokio = { version = "=1.54.1", features = ["macros", "rt-multi-thread"] }
serenity = { version = "=0.11.7", default-features = false, features = ["builder", "cache", "client", "collector", "framework", "gateway", "model", "http", "standard_framework", "utils", "rustls_backend"] }
sqlx = { version = "=0.6.3", features = ["mysql", "runtime-tokio-rustls"] }
reqwest = { version = "=0.11.27", default-features = false, features = ["rustls-tls"] }
tabled = "=0.10.0"
