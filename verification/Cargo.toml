[package]
name = "oathkeeper"
version = "0.1.0"
edition = "2021"
publish = false

[dependencies]
actix-web = "=4.15.0"
actix-files = "=0.6.10"
chrono = { version = "=0.4.45", features = ["serde"] }
dotenv = "=0.15.0"
env_logger = "=0.11.11"
handlebars = "=4.5.0"
html-minifier = "*"
log = "=0.4.34"
serde = { version = "=1.0.229", features = ["derive"] }
serde_json = "=1.0.151"
sqlx = { version = "=0.8.6", features = ["runtime-tokio", "postgres", "chrono"] }
walkdir = "=2.5.0"
