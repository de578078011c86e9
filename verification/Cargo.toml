[package]
name = "item_service"
version = "0.1.0"
edition = "2021"
publish = false

[dependencies]
actix-web = "*"
dotenv = "*"
env_logger = "*"
serde = { version = "*", features = ["derive"] }
sqlx = { version = "*", default-features = false, features = ["runtime-tokio", "postgres"] }
