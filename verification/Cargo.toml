[package]
name = "ballot_bot"
version = "0.1.0"
edition = "2021"
publish = false

[dependencies]
log = "0.4"
rand = "0.8"
serenity = { version = "0.11", default-features = false, features = ["client", "gateway", "rustls_backend", "model"] }
sqlx = { version = "0.6", default-features = false, features = ["runtime-tokio-rustls", "postgres"] }
