[package]
name = "battlemon_rest"
version = "0.1.0"
edition = "2021"
publish = false

[dependencies]
anyhow = "1"
argon2 = "=0.4.1"
actix-web = "=4.15.0"
actix-web-lab = "=0.19.2"
base64 = "=0.13.1"
chrono = { version = "=0.4.45", features = ["serde"] }
serde = { version = "1", features = ["derive"] }
serde_json = "1"
sqlx = { version = "=0.6.3", default-features = false, features = ["runtime-tokio-rustls", "postgres", "chrono"] }
tokio = { version = "1", features = ["rt-multi-thread", "macros"] }
