[package]
name = "finstack-api"
version = "0.1.0"
edition = "2021"
publish = false

[dependencies]
bcrypt = "0.15"
jsonwebtoken = "9"
uuid = { version = "1", features = ["v4", "serde"] }
chrono = { version = "0.4", features = ["serde"] }
serde_json = "1"
serde = { version = "1", features = ["derive"] }
actix-web = "4"
actix-web-httpauth = "0.8"
actix-cors = "0.7"
diesel = { version = "2", features = ["postgres", "r2d2", "uuid", "chrono"] }
r2d2 = "0.8"
rust_decimal = { version = "1", features = ["db-diesel2-postgres", "serde-float"] }
dotenvy = "0.15"
env_logger = "0.11"
log = "0.4"
