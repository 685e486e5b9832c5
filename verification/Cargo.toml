[package]
name = "spacies"
version = "0.1.0"
edition = "2021"
publish = false

[dependencies]
bcrypt = "=0.19.3"
magic-crypt = "=6.0.0"
sanitize-filename = "=0.6.0"
serde = { version = "=1.0.229", features = ["derive"] }
serde_json = { version = "=1.0.154", features = ["preserve_order"] }
chrono = "=0.4.45"
jsonwebtoken = "=9.3.1"
actix-web = "=4.18.1"
actix-web-httpauth = "=0.8.3"
actix-cors = "=0.7.2"
actix-files = "=0.6.10"
actix-multipart = "=0.7.2"
futures = "=0.3.34"
rand = "=0.8.8"
tokio = { version = "=1.54.1", features = ["rt", "macros"] }
dotenv = "=0.15.0"
cron = "=0.17.0"
lettre = { version = "=0.11.23", default-features = false, features = ["builder", "smtp-transport"] }
rust-s3 = { version = "=0.35.1", features = ["blocking"] }
pusher = "=0.4.5"
listenfd = "=1.0.2"
actix = "=0.13.5"
