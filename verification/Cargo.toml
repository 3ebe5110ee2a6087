[package]
name = "credential_store"
version = "0.1.0"
edition = "2021"
publish = false

[dependencies]
actix-web = "*"
bcrypt = "*"
serde = { version = "*", features = ["derive"] }
