[package]
name = "user_auth"
version = "0.1.0"
edition = "2021"
publish = false

[dependencies]
rust-argon2 = { version = "=3.0.0", default-features = false }
google-authenticator = { version = "=0.4.2", default-features = false }
rand = "=0.8.8"
sqlx = { version = "=0.9.0", default-features = false }
