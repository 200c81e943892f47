[package]
name = "recipe_backend"
version = "0.1.0"
edition = "2021"
publish = false

[dependencies]
jwt = "0.16"
hmac = "0.12"
sha2 = "0.10"
regex = "1"
uuid = { version = "1", features = ["v4"] }
bcrypt = "0.15"
sanitize-filename = "0.5"
chrono = { version = "0.4", features = ["serde"] }
serde = { version = "1", features = ["derive"] }
serde_json = "1"
anyhow = "1"
futures = "0.3"
actix-web = { version = "4", default-features = false, features = ["macros"] }
actix-cors = "*"
actix-files = "*"
actix-multipart = "*"
actix-extensible-rate-limit = "*"
dotenv = "0.15"
sqlx = { version = "0.7", default-features = false, features = ["runtime-tokio", "postgres", "chrono"] }
