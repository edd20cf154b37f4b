[package]
name = "profile_og"
version = "0.1.0"
edition = "2021"
publish = false

[dependencies]
serde_json = "*"
chrono = "*"
serde = { version = "*", features = ["derive"] }
actix-web = { version = "*", default-features = false, features = ["macros"] }
reqwest = { version = "*", default-features = false }
sqlx = { version = "*", default-features = false, features = ["runtime-tokio", "sqlite"] }
dotenv = "*"
env_logger = "*"
log = "*"
colored = "*"
thiserror = "*"
